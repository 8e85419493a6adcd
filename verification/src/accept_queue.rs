//! The accept queue: a bounded FIFO of accepted-but-unclaimed connections,
//! shared between the host accept loop (producer) and the guest `accept`
//! syscall (consumer), with a latched error.
//!
//! Capacity is a hard bound: an enqueue on a full queue refuses, changes
//! nothing, and reports "no space", so the host accept loop parks itself
//! until the guest drains the queue.
use vstd::prelude::*;

use crate::linux_def::EventMask;
use crate::linux_def::EVENT_ERR;
use crate::linux_def::EVENT_IN;
use crate::socket_buf::SocketBuff;

verus! {

/// Bytes of peer-address storage carried with an accepted connection;
/// large enough for any sockaddr the host returns.
pub const TCP_ADDR_LEN: usize = 128;

/// A peer address as raw sockaddr bytes, fixed-size storage.
#[derive(Clone, Copy)]
pub struct TcpSockAddr {
    pub data: [u8; 128],
}

impl Default for TcpSockAddr {
    fn default() -> (r: TcpSockAddr)
        ensures
            r.data@ == Seq::<u8>::new(128, |i: int| 0u8),
    {
        TcpSockAddr { data: [0u8; 128] }
    }
}

/// One accepted connection waiting to be claimed: the host fd, the peer
/// address (`len` significant bytes), and the connection's socket buffer.
#[derive(Clone, Copy)]
pub struct AcceptItem {
    pub fd: i32,
    pub addr: TcpSockAddr,
    pub len: u32,
    pub sockBuf: SocketBuff,
}

impl AcceptItem {
    pub open spec fn wf(&self) -> bool {
        &&& self.sockBuf.wf()
        &&& self.len <= 128
    }
}

/// The bounded accept FIFO with its latched error.
#[derive(Clone)]
pub struct AcceptQueue {
    pub queue: Vec<AcceptItem>,
    /// Capacity; the queue never holds more items than this.
    pub queueLen: usize,
    /// Latched errno from the host accept loop; sticky once non-zero.
    pub err: i32,
}

impl AcceptQueue {
    pub open spec fn wf(&self) -> bool {
        &&& self.queue@.len() <= self.queueLen
        &&& self.err >= 0
        &&& forall|i: int| 0 <= i < self.queue@.len() ==> #[trigger] self.queue@[i].wf()
    }

    /// The readiness mask: EVENT_IN while connections (or an error) wait,
    /// EVENT_ERR while an error is latched. The two bits are disjoint, so
    /// the sum equals their bitwise or.
    pub open spec fn spec_events(&self) -> EventMask {
        (
            (if self.err != 0 || self.queue@.len() > 0 { EVENT_IN } else { 0 })
            + (if self.err != 0 { EVENT_ERR } else { 0 })
        ) as EventMask
    }

    pub fn New(queueLen: usize) -> (r: AcceptQueue)
        ensures
            r.wf(),
            r.queue@.len() == 0,
            r.queueLen == queueLen,
            r.err == 0,
    {
        AcceptQueue { queue: Vec::new(), queueLen, err: 0 }
    }

    pub fn Error(&self) -> (r: i32)
        ensures
            r == self.err,
    {
        self.err
    }

    /// Latch an errno; the first latched error is sticky.
    pub fn SetErr(&mut self, errno: i32)
        requires
            old(self).wf(),
            errno > 0,
        ensures
            final(self).wf(),
            final(self).err == (if old(self).err == 0 { errno } else { old(self).err }),
            final(self).queue == old(self).queue,
            final(self).queueLen == old(self).queueLen,
    {
        if self.err == 0 {
            self.err = errno;
        }
    }

    pub fn Len(&self) -> (r: usize)
        ensures
            r == self.queue@.len(),
    {
        self.queue.len()
    }

    pub fn HasSpace(&self) -> (r: bool)
        ensures
            r == (self.queue@.len() < self.queueLen),
    {
        self.queue.len() < self.queueLen
    }

    /// Resize at listen time. The capacity never shrinks below the number
    /// of connections already queued: none is dropped by a re-listen.
    pub fn SetQueueLen(&mut self, len: usize)
        requires
            old(self).wf(),
        ensures
            final(self).wf(),
            final(self).queueLen == (if len >= old(self).queue@.len() {
                len as int
            } else {
                old(self).queue@.len() as int
            }),
            final(self).queue == old(self).queue,
            final(self).err == old(self).err,
    {
        let cur = self.queue.len();
        self.queueLen = if len >= cur { len } else { cur };
    }

    /// Push an accepted connection. Returns `(trigger, hasSpace)`: whether
    /// the queue went empty to non-empty (EVENT_IN must be notified), and
    /// whether further enqueues are permitted. On a full queue, or once an
    /// error is latched, nothing changes and `(false, false)` is returned.
    pub fn EnqSocket(&mut self, fd: i32, addr: TcpSockAddr, len: u32, sockBuf: SocketBuff) -> (r:
        (bool, bool))
        requires
            old(self).wf(),
            sockBuf.wf(),
            len <= 128,
        ensures
            final(self).wf(),
            final(self).queueLen == old(self).queueLen,
            final(self).err == old(self).err,
            old(self).err != 0 || old(self).queue@.len() >= old(self).queueLen ==> {
                &&& final(self).queue == old(self).queue
                &&& r == (false, false)
            },
            old(self).err == 0 && old(self).queue@.len() < old(self).queueLen ==> {
                &&& final(self).queue@ == old(self).queue@.push(AcceptItem { fd, addr, len, sockBuf })
                &&& r.0 == (old(self).queue@.len() == 0)
                &&& r.1 == (old(self).queue@.len() + 1 < old(self).queueLen)
            },
    {
        if self.err != 0 || self.queue.len() >= self.queueLen {
            return (false, false);
        }
        let trigger = self.queue.len() == 0;
        self.queue.push(AcceptItem { fd, addr, len, sockBuf });
        let hasSpace = self.queue.len() < self.queueLen;
        (trigger, hasSpace)
    }

    /// Pop the oldest accepted connection, if any.
    pub fn DeqSocket(&mut self) -> (r: Option<AcceptItem>)
        requires
            old(self).wf(),
        ensures
            final(self).wf(),
            final(self).queueLen == old(self).queueLen,
            final(self).err == old(self).err,
            old(self).queue@.len() == 0 ==> r is None && *final(self) == *old(self),
            old(self).queue@.len() > 0 ==> {
                &&& r == Some(old(self).queue@[0])
                &&& final(self).queue@ == old(self).queue@.subrange(1, old(self).queue@.len() as int)
            },
    {
        if self.queue.len() == 0 {
            return None;
        }
        let item = self.queue.remove(0);
        Some(item)
    }

    /// The readiness mask of the listening socket.
    pub fn Events(&self) -> (r: EventMask)
        ensures
            r == self.spec_events(),
    {
        let mut ev: u64 = 0;
        if self.err != 0 || self.queue.len() > 0 {
            ev = ev + EVENT_IN;
        }
        if self.err != 0 {
            ev = ev + EVENT_ERR;
        }
        ev
    }
}

impl Default for AcceptQueue {
    /// An accept queue before `listen` has configured it: empty, with no
    /// capacity yet.
    fn default() -> (r: AcceptQueue)
        ensures
            r.wf(),
            r.queue@.len() == 0,
            r.queueLen == 0,
            r.err == 0,
    {
        AcceptQueue::New(0)
    }
}

/// Accept-queue capacity law: the queue never holds more connections than
/// its capacity, and an enqueue on a full queue refuses without dropping
/// anything (that refusal is the second ensures clause of `EnqSocket`).
pub proof fn lemma_accept_queue_capacity(q: AcceptQueue)
    requires
        q.wf(),
    ensures
        q.queue@.len() <= q.queueLen,
{
}

} // verus!
