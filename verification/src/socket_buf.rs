//! The shared socket buffer: a pair of bounded SPSC byte rings (read half:
//! host/peer produces, guest consumes; write half: guest produces, host/peer
//! consumes) plus the latched status flags that readiness is computed from.
//!
//! The rings are modelled by their cursors: `head` is the index of the
//! oldest byte, `len` the bytes currently queued, and a pair of ghost
//! counters tracks the total bytes ever produced and consumed, so that the
//! conservation law `produced - consumed == len <= capacity` is part of
//! well-formedness. The byte payload itself lives in memory shared with the
//! host and is moved by the unverified runtime; every placement decision
//! (offsets and counts) is made here.
use vstd::prelude::*;

use crate::linux_def::EventMask;
use crate::linux_def::EVENT_ERR;
use crate::linux_def::EVENT_HUP;
use crate::linux_def::EVENT_IN;
use crate::linux_def::EVENT_OUT;
use crate::linux_def::EVENT_PENDING_SHUTDOWN;

verus! {

/// Ring capacity used for a freshly buffered connection, in 4 KiB pages.
pub const DEFAULT_BUF_PAGE_COUNT: u64 = 16;

pub open spec fn min64(a: u64, b: u64) -> u64 {
    if a <= b { a } else { b }
}

/// One half of the socket buffer: a bounded byte ring described by its
/// cursors. Indices wrap at `capacity`, which is a power of two no larger
/// than `u32::MAX` (it must fit the RDMA length fields of the wire format).
#[derive(Clone, Copy)]
pub struct RingBuf {
    pub capacity: u64,
    /// Index of the oldest queued byte; always below `capacity`.
    pub head: u64,
    /// Number of bytes currently queued; never exceeds `capacity`.
    pub len: u64,
    /// Total bytes ever produced into this half.
    pub produced: Ghost<nat>,
    /// Total bytes ever consumed from this half.
    pub consumed: Ghost<nat>,
}

impl RingBuf {
    pub open spec fn wf(&self) -> bool {
        &&& 0 < self.capacity <= u32::MAX as u64
        &&& (self.capacity & ((self.capacity - 1) as u64)) == 0
        &&& self.head < self.capacity
        &&& self.len <= self.capacity
        &&& self.produced@ == self.consumed@ + self.len
    }

    /// Free space left for the producer.
    pub open spec fn spec_free(&self) -> u64 {
        (self.capacity - self.len) as u64
    }

    /// Index one past the newest queued byte, where production continues.
    pub open spec fn spec_tail(&self) -> u64 {
        (((self.head + self.len) % (self.capacity as int)) as u64)
    }

    /// Length of the contiguous queued region starting at `head`.
    pub open spec fn spec_contig_data(&self) -> u64 {
        min64(self.len, (self.capacity - self.head) as u64)
    }

    /// Length of the contiguous free region starting at the tail index.
    pub open spec fn spec_contig_free(&self) -> u64 {
        min64(self.spec_free(), (self.capacity - self.spec_tail()) as u64)
    }

    pub fn New(capacity: u64) -> (r: RingBuf)
        requires
            0 < capacity <= u32::MAX as u64,
            (capacity & ((capacity - 1) as u64)) == 0,
        ensures
            r.wf(),
            r.capacity == capacity,
            r.head == 0,
            r.len == 0,
            r.produced@ == 0,
            r.consumed@ == 0,
    {
        RingBuf {
            capacity,
            head: 0,
            len: 0,
            produced: Ghost(0),
            consumed: Ghost(0),
        }
    }

    pub fn AvailableDataSize(&self) -> (r: u64)
        ensures
            r == self.len,
    {
        self.len
    }

    pub fn AvailableSpace(&self) -> (r: u64)
        requires
            self.wf(),
        ensures
            r == self.spec_free(),
    {
        self.capacity - self.len
    }

    /// The contiguous queued region as `(start index, byte count)`.
    pub fn GetDataBuf(&self) -> (r: (u64, u64))
        requires
            self.wf(),
        ensures
            r.0 == self.head,
            r.1 == self.spec_contig_data(),
    {
        let wrap = self.capacity - self.head;
        let cnt = if self.len <= wrap { self.len } else { wrap };
        (self.head, cnt)
    }

    /// The contiguous free region as `(start index, byte count)`.
    pub fn GetSpaceBuf(&self) -> (r: (u64, u64))
        requires
            self.wf(),
        ensures
            r.0 == self.spec_tail(),
            r.1 == self.spec_contig_free(),
    {
        let tail = (self.head + self.len) % self.capacity;
        let wrap = self.capacity - tail;
        let free = self.capacity - self.len;
        let cnt = if free <= wrap { free } else { wrap };
        (tail, cnt)
    }

    /// Advance the producer cursor by `count` bytes. Returns true exactly
    /// when the ring went from empty to non-empty, i.e. a reader waiting
    /// for data must be notified.
    pub fn Produce(&mut self, count: u64) -> (trigger: bool)
        requires
            old(self).wf(),
            count <= old(self).spec_free(),
        ensures
            final(self).wf(),
            final(self).capacity == old(self).capacity,
            final(self).head == old(self).head,
            final(self).len == old(self).len + count,
            final(self).produced@ == old(self).produced@ + count,
            final(self).consumed@ == old(self).consumed@,
            trigger == (old(self).len == 0 && count > 0),
    {
        let was_empty = self.len == 0;
        self.len = self.len + count;
        proof {
            self.produced@ = self.produced@ + count as nat;
        }
        was_empty && count > 0
    }

    /// Advance the consumer cursor by `count` bytes. Returns true exactly
    /// when the ring went from full to non-full, i.e. a writer waiting for
    /// space must be notified.
    pub fn Consume(&mut self, count: u64) -> (trigger: bool)
        requires
            old(self).wf(),
            count <= old(self).len,
        ensures
            final(self).wf(),
            final(self).capacity == old(self).capacity,
            final(self).head == (old(self).head + count) % (old(self).capacity as int),
            final(self).len == old(self).len - count,
            final(self).produced@ == old(self).produced@,
            final(self).consumed@ == old(self).consumed@ + count,
            trigger == (old(self).len == old(self).capacity && count > 0),
    {
        let was_full = self.len == self.capacity;
        self.head = (self.head + count) % self.capacity;
        self.len = self.len - count;
        proof {
            self.consumed@ = self.consumed@ + count as nat;
        }
        was_full && count > 0
    }
}

/// A buffer as a new connection receives it: default capacity, empty
/// rings, no latched error or close flags, and no credits accumulated.
pub open spec fn spec_fresh_buf(b: SocketBuff) -> bool {
    &&& b.readBuf.capacity == DEFAULT_BUF_PAGE_COUNT * 4096
    &&& b.writeBuf.capacity == DEFAULT_BUF_PAGE_COUNT * 4096
    &&& b.readBuf.head == 0 && b.readBuf.len == 0
    &&& b.writeBuf.head == 0 && b.writeBuf.len == 0
    &&& b.readBuf.produced@ == 0 && b.readBuf.consumed@ == 0
    &&& b.writeBuf.produced@ == 0 && b.writeBuf.consumed@ == 0
    &&& b.err == 0
    &&& !b.rClosed && !b.wClosed && !b.pendingWShutdown
    &&& b.consumeReadData == 0
    &&& b.creditsReturned@ == 0
}

/// Ring conservation: for each half, the bytes produced minus the bytes
/// consumed are exactly the bytes in the ring, and they never exceed the
/// capacity.
pub proof fn lemma_ring_conservation(rb: RingBuf)
    requires
        rb.wf(),
    ensures
        rb.produced@ - rb.consumed@ == rb.len as int,
        0 <= rb.len <= rb.capacity,
{
}

/// The shared socket buffer: both ring halves plus the status word.
///
/// The `consumeReadData` counter accumulates the bytes the guest has
/// consumed from the read half since the last credit report to the peer;
/// `creditsReturned` is the ghost total of credits already reported, so
/// well-formedness carries the credit-accounting law: credits reported plus
/// credits pending equal the total bytes consumed from the read half.
#[derive(Clone, Copy)]
pub struct SocketBuff {
    pub readBuf: RingBuf,
    pub writeBuf: RingBuf,
    /// Latched errno; zero while no error has occurred, sticky afterwards.
    pub err: i32,
    pub rClosed: bool,
    pub wClosed: bool,
    pub pendingWShutdown: bool,
    /// Bytes consumed from the read half and not yet reported to the peer.
    pub consumeReadData: u64,
    /// Total credit bytes already reported to the peer.
    pub creditsReturned: Ghost<nat>,
}

impl SocketBuff {
    pub open spec fn wf(&self) -> bool {
        &&& self.readBuf.wf()
        &&& self.writeBuf.wf()
        &&& self.err >= 0
        &&& self.creditsReturned@ + self.consumeReadData == self.readBuf.consumed@
    }

    /// The readiness mask implied by the current state. The five bits are
    /// disjoint, so the sum below equals their bitwise or.
    pub open spec fn spec_events(&self) -> EventMask {
        (
            (if self.err != 0 || self.readBuf.len > 0 || self.rClosed { EVENT_IN } else { 0 })
            + (if self.err != 0 { EVENT_ERR } else { 0 })
            + (if self.rClosed && self.readBuf.len == 0 { EVENT_HUP } else { 0 })
            + (if !self.wClosed && self.writeBuf.len < self.writeBuf.capacity { EVENT_OUT } else { 0 })
            + (if self.pendingWShutdown && self.writeBuf.len == 0 { EVENT_PENDING_SHUTDOWN } else { 0 })
        ) as EventMask
    }

    pub fn Init(pageCount: u64) -> (r: SocketBuff)
        requires
            0 < pageCount <= 0x8_0000,
            (pageCount & ((pageCount - 1) as u64)) == 0,
        ensures
            r.wf(),
            r.readBuf.capacity == pageCount * 4096,
            r.writeBuf.capacity == pageCount * 4096,
            r.readBuf.head == 0,
            r.writeBuf.head == 0,
            r.readBuf.len == 0,
            r.writeBuf.len == 0,
            r.err == 0,
            !r.rClosed,
            !r.wClosed,
            !r.pendingWShutdown,
            r.consumeReadData == 0,
            r.creditsReturned@ == 0,
            r.readBuf.consumed@ == 0,
            r.readBuf.produced@ == 0,
            r.writeBuf.consumed@ == 0,
            r.writeBuf.produced@ == 0,
    {
        let capacity = pageCount * 4096;
        assert((capacity & ((capacity - 1) as u64)) == 0 && capacity <= u32::MAX as u64) by (bit_vector)
            requires
                (pageCount & ((pageCount - 1) as u64)) == 0,
                0 < pageCount <= 0x8_0000,
                capacity == pageCount * 4096,
        ;
        SocketBuff {
            readBuf: RingBuf::New(capacity),
            writeBuf: RingBuf::New(capacity),
            err: 0,
            rClosed: false,
            wClosed: false,
            pendingWShutdown: false,
            consumeReadData: 0,
            creditsReturned: Ghost(0),
        }
    }

    /// Size of the read half's backing region; it is the buffer the peer's
    /// RDMA writes land in, so the handshake advertises this length.
    pub fn ReadBufSize(&self) -> (r: u64)
        ensures
            r == self.readBuf.capacity,
    {
        self.readBuf.capacity
    }

    pub fn Error(&self) -> (r: i32)
        ensures
            r == self.err,
    {
        self.err
    }

    /// Latch an errno. The first latched error wins: a second call leaves
    /// the stored error unchanged, so a latched error never changes.
    pub fn SetErr(&mut self, errno: i32)
        requires
            old(self).wf(),
            errno > 0,
        ensures
            final(self).wf(),
            final(self).err == (if old(self).err == 0 { errno } else { old(self).err }),
            final(self).readBuf == old(self).readBuf,
            final(self).writeBuf == old(self).writeBuf,
            final(self).rClosed == old(self).rClosed,
            final(self).wClosed == old(self).wClosed,
            final(self).pendingWShutdown == old(self).pendingWShutdown,
            final(self).consumeReadData == old(self).consumeReadData,
            final(self).creditsReturned == old(self).creditsReturned,
    {
        if self.err == 0 {
            self.err = errno;
        }
    }

    pub fn RClosed(&self) -> (r: bool)
        ensures
            r == self.rClosed,
    {
        self.rClosed
    }

    pub fn WClosed(&self) -> (r: bool)
        ensures
            r == self.wClosed,
    {
        self.wClosed
    }

    pub fn SetRClosed(&mut self)
        requires
            old(self).wf(),
        ensures
            final(self).wf(),
            *final(self) == (SocketBuff { rClosed: true, ..*old(self) }),
    {
        self.rClosed = true;
    }

    pub fn SetWClosed(&mut self)
        requires
            old(self).wf(),
        ensures
            final(self).wf(),
            *final(self) == (SocketBuff { wClosed: true, ..*old(self) }),
    {
        self.wClosed = true;
    }

    pub fn PendingWriteShutdown(&self) -> (r: bool)
        ensures
            r == self.pendingWShutdown,
    {
        self.pendingWShutdown
    }

    pub fn SetPendingWriteShutdown(&mut self)
        requires
            old(self).wf(),
        ensures
            final(self).wf(),
            *final(self) == (SocketBuff { pendingWShutdown: true, ..*old(self) }),
    {
        self.pendingWShutdown = true;
    }

    pub fn HasReadData(&self) -> (r: bool)
        ensures
            r == (self.readBuf.len > 0),
    {
        self.readBuf.len > 0
    }

    pub fn HasWriteData(&self) -> (r: bool)
        ensures
            r == (self.writeBuf.len > 0),
    {
        self.writeBuf.len > 0
    }

    /// Bytes queued in the read half and visible to the guest (TIOCINQ and
    /// the TCP_INQ control message report this number).
    pub fn AvailableReadDataSize(&self) -> (r: u64)
        ensures
            r == self.readBuf.len,
    {
        self.readBuf.AvailableDataSize()
    }

    /// The peer (or host) produced `count` bytes into the read half.
    /// Returns `(trigger, offset, count)`: whether the half went empty to
    /// non-empty (EVENT_IN must be notified), and the contiguous free
    /// region left for further production.
    pub fn ProduceAndGetFreeReadBuf(&mut self, count: u64) -> (r: (bool, u64, u64))
        requires
            old(self).wf(),
            !old(self).rClosed,
            count <= old(self).readBuf.spec_free(),
        ensures
            final(self).wf(),
            *final(self) == (SocketBuff { readBuf: final(self).readBuf, ..*old(self) }),
            final(self).readBuf.len == old(self).readBuf.len + count,
            final(self).readBuf.produced@ == old(self).readBuf.produced@ + count,
            final(self).readBuf.consumed@ == old(self).readBuf.consumed@,
            final(self).readBuf.capacity == old(self).readBuf.capacity,
            final(self).readBuf.head == old(self).readBuf.head,
            r.0 == (old(self).readBuf.len == 0 && count > 0),
            r.1 == final(self).readBuf.spec_tail(),
            r.2 == final(self).readBuf.spec_contig_free(),
    {
        let trigger = self.readBuf.Produce(count);
        let (offset, cnt) = self.readBuf.GetSpaceBuf();
        (trigger, offset, cnt)
    }

    /// The contiguous free region of the read half, without advancing.
    pub fn GetFreeReadBuf(&self) -> (r: (u64, u64))
        requires
            self.wf(),
        ensures
            r.0 == self.readBuf.spec_tail(),
            r.1 == self.readBuf.spec_contig_free(),
    {
        self.readBuf.GetSpaceBuf()
    }

    /// The host (or the RDMA completion) consumed `count` bytes from the
    /// write half. Returns `(trigger, offset, count)`: whether the half
    /// went full to non-full (EVENT_OUT must be notified), and the
    /// contiguous data region still waiting to be sent.
    pub fn ConsumeAndGetAvailableWriteBuf(&mut self, count: u64) -> (r: (bool, u64, u64))
        requires
            old(self).wf(),
            count <= old(self).writeBuf.len,
        ensures
            final(self).wf(),
            *final(self) == (SocketBuff { writeBuf: final(self).writeBuf, ..*old(self) }),
            final(self).writeBuf.len == old(self).writeBuf.len - count,
            final(self).writeBuf.consumed@ == old(self).writeBuf.consumed@ + count,
            final(self).writeBuf.produced@ == old(self).writeBuf.produced@,
            final(self).writeBuf.capacity == old(self).writeBuf.capacity,
            r.0 == (old(self).writeBuf.len == old(self).writeBuf.capacity && count > 0),
            r.1 == final(self).writeBuf.head,
            r.2 == final(self).writeBuf.spec_contig_data(),
    {
        let trigger = self.writeBuf.Consume(count);
        let (offset, cnt) = self.writeBuf.GetDataBuf();
        (trigger, offset, cnt)
    }

    /// The contiguous data region of the write half, without advancing.
    pub fn GetAvailableWriteBuf(&self) -> (r: (u64, u64))
        requires
            self.wf(),
        ensures
            r.0 == self.writeBuf.head,
            r.1 == self.writeBuf.spec_contig_data(),
    {
        self.writeBuf.GetDataBuf()
    }

    /// Take the pending credit count and reset it; the caller reports the
    /// returned number to the peer (it rides in the immediate data of the
    /// next RDMA write).
    pub fn GetAndClearConsumeReadData(&mut self) -> (r: u64)
        requires
            old(self).wf(),
        ensures
            final(self).wf(),
            r == old(self).consumeReadData,
            *final(self) == (SocketBuff {
                consumeReadData: 0,
                creditsReturned: final(self).creditsReturned,
                ..*old(self)
            }),
            final(self).creditsReturned@ == old(self).creditsReturned@ + r,
    {
        let r = self.consumeReadData;
        self.consumeReadData = 0;
        proof {
            self.creditsReturned@ = self.creditsReturned@ + r as nat;
        }
        r
    }

    /// The guest consumes up to `want` bytes from the read half; the bytes
    /// taken are added to the pending credit count.
    pub fn ReadData(&mut self, want: u64) -> (r: u64)
        requires
            old(self).wf(),
            old(self).consumeReadData + want <= u64::MAX,
        ensures
            final(self).wf(),
            r == min64(want, old(self).readBuf.len),
            final(self).readBuf.len == old(self).readBuf.len - r,
            final(self).readBuf.consumed@ == old(self).readBuf.consumed@ + r,
            final(self).readBuf.produced@ == old(self).readBuf.produced@,
            final(self).readBuf.capacity == old(self).readBuf.capacity,
            final(self).consumeReadData == old(self).consumeReadData + r,
            final(self).creditsReturned == old(self).creditsReturned,
            final(self).writeBuf == old(self).writeBuf,
            final(self).err == old(self).err,
            final(self).rClosed == old(self).rClosed,
            final(self).wClosed == old(self).wClosed,
            final(self).pendingWShutdown == old(self).pendingWShutdown,
    {
        let n = if want <= self.readBuf.len { want } else { self.readBuf.len };
        self.readBuf.Consume(n);
        self.consumeReadData = self.consumeReadData + n;
        n
    }

    /// The guest produces up to `want` bytes into the write half.
    pub fn WriteData(&mut self, want: u64) -> (r: u64)
        requires
            old(self).wf(),
        ensures
            final(self).wf(),
            r == min64(want, old(self).writeBuf.spec_free()),
            final(self).writeBuf.len == old(self).writeBuf.len + r,
            final(self).writeBuf.produced@ == old(self).writeBuf.produced@ + r,
            final(self).writeBuf.consumed@ == old(self).writeBuf.consumed@,
            final(self).writeBuf.capacity == old(self).writeBuf.capacity,
            final(self).writeBuf.head == old(self).writeBuf.head,
            *final(self) == (SocketBuff { writeBuf: final(self).writeBuf, ..*old(self) }),
    {
        let free = self.writeBuf.AvailableSpace();
        let n = if want <= free { want } else { free };
        self.writeBuf.Produce(n);
        n
    }

    /// Compose the readiness mask: EVENT_IN for readable data, an error or
    /// a closed read half; EVENT_ERR while an error is latched; EVENT_HUP
    /// once the read half is closed and drained; EVENT_OUT while the write
    /// half has space and is not closed; EVENT_PENDING_SHUTDOWN once a
    /// parked write shutdown sees the write half drained.
    pub fn Events(&self) -> (r: EventMask)
        requires
            self.wf(),
        ensures
            r == self.spec_events(),
    {
        let mut ev: u64 = 0;
        if self.err != 0 || self.readBuf.len > 0 || self.rClosed {
            ev = ev + EVENT_IN;
        }
        if self.err != 0 {
            ev = ev + EVENT_ERR;
        }
        if self.rClosed && self.readBuf.len == 0 {
            ev = ev + EVENT_HUP;
        }
        if !self.wClosed && self.writeBuf.len < self.writeBuf.capacity {
            ev = ev + EVENT_OUT;
        }
        if self.pendingWShutdown && self.writeBuf.len == 0 {
            ev = ev + EVENT_PENDING_SHUTDOWN;
        }
        ev
    }
}

impl Default for SocketBuff {
    /// A socket buffer with the default ring capacity, as handed to a
    /// freshly accepted connection.
    fn default() -> (r: SocketBuff)
        ensures
            r.wf(),
            r.readBuf.capacity == DEFAULT_BUF_PAGE_COUNT * 4096,
            r.writeBuf.capacity == DEFAULT_BUF_PAGE_COUNT * 4096,
            r.readBuf.len == 0,
            r.writeBuf.len == 0,
            r.err == 0,
            !r.rClosed,
            !r.wClosed,
            !r.pendingWShutdown,
            r.consumeReadData == 0,
            r.creditsReturned@ == 0,
            spec_fresh_buf(r),
    {
        proof {
            assert(16u64 & ((16u64 - 1) as u64) == 0) by (bit_vector);
        }
        SocketBuff::Init(DEFAULT_BUF_PAGE_COUNT)
    }
}

/// Error stickiness, readiness side: while an error is latched the
/// readiness mask always contains both EVENT_ERR and EVENT_IN.
pub proof fn lemma_err_readiness(b: SocketBuff)
    requires
        b.wf(),
        b.err != 0,
    ensures
        b.spec_events() & (EVENT_ERR | EVENT_IN) == (EVENT_ERR | EVENT_IN),
{
    let h: u64 = if b.rClosed && b.readBuf.len == 0 { EVENT_HUP } else { 0 };
    let o: u64 = if !b.wClosed && b.writeBuf.len < b.writeBuf.capacity { EVENT_OUT } else { 0 };
    let p: u64 = if b.pendingWShutdown && b.writeBuf.len == 0 { EVENT_PENDING_SHUTDOWN } else { 0 };
    assert(EVENT_ERR | EVENT_IN == 0x9u64) by (bit_vector);
    let e: u64 = b.spec_events();
    assert(e == (0x9u64 + h + o + p) as u64);
    assert(e & 0x9u64 == 0x9u64) by (bit_vector)
        requires
            e == (0x9u64 + h + o + p) as u64,
            h == 0 || h == 0x10u64,
            o == 0 || o == 0x4u64,
            p == 0 || p == 0x10000u64,
    ;
}

/// Credit accounting, steady state: once no credits are pending, the total
/// credits reported to the peer equal the total bytes consumed from the
/// read half.
pub proof fn lemma_credit_accounting(b: SocketBuff)
    requires
        b.wf(),
        b.consumeReadData == 0,
    ensures
        b.creditsReturned@ == b.readBuf.consumed@,
{
}

} // verus!
