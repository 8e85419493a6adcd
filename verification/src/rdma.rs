//! The RDMA transport: the bootstrap wire format, the per-connection
//! handshake state machine, and the credit-based WRITE_IMM data engine.
//!
//! All host I/O (the bootstrap TCP reads and writes, the RDMA verbs) is the
//! runtime's work: every function here either turns received bytes into
//! state, or returns the exact request the runtime must post. The single-
//! flight law (at most one WRITE_IMM in flight per socket), the credit law
//! (the peer's free space never exceeds its ring length) and the receive
//! depth law (a ready socket keeps MAX_RECV_WR receives posted) are part of
//! the connection's well-formedness.
use vstd::prelude::*;

use crate::accept_queue::AcceptQueue;
use crate::accept_queue::TcpSockAddr;
use crate::linux_def::Error;
use crate::linux_def::EventMask;
use crate::linux_def::SysErr;
use crate::linux_def::EVENT_ERR;
use crate::linux_def::EVENT_HUP;
use crate::linux_def::EVENT_IN;
use crate::linux_def::EVENT_OUT;
use crate::linux_def::EVENT_PENDING_SHUTDOWN;
use crate::linux_def::EVENT_READ;
use crate::linux_def::EVENT_WRITE;
use crate::socket_buf::min64;
use crate::socket_buf::SocketBuff;

verus! {

/// Receive work requests a ready connection keeps posted.
pub const MAX_RECV_WR: u32 = 128;

/// The 8-byte acknowledgement each side sends once its queue pair is ready.
pub const ACK_DATA: u64 = 0x1234567890;

/// An InfiniBand global identifier, carried opaquely through the handshake.
#[derive(Clone, Copy, Debug)]
pub struct Gid {
    pub raw: [u8; 16],
}

/// The per-side connection record exchanged at handshake time. `raddr`,
/// `rlen` and `rkey` describe the read half of the sender's socket buffer,
/// which is the buffer its peer writes into; `offset`, `freespace` and
/// `sending` are the sender's cursor over the *peer's* ring as known
/// locally.
#[derive(Clone, Copy, Debug)]
pub struct RDMAInfo {
    pub raddr: u64,
    pub rlen: u32,
    pub rkey: u32,
    pub qp_num: u32,
    pub lid: u16,
    pub offset: u32,
    pub freespace: u32,
    pub gid: Gid,
    pub sending: bool,
}

/// Little-endian bytes of a u16.
pub open spec fn u16_le(x: u16) -> Seq<u8> {
    seq![(x & 0xff) as u8, ((x >> 8) & 0xff) as u8]
}

/// Little-endian bytes of a u32.
pub open spec fn u32_le(x: u32) -> Seq<u8> {
    seq![
        (x & 0xff) as u8,
        ((x >> 8) & 0xff) as u8,
        ((x >> 16) & 0xff) as u8,
        ((x >> 24) & 0xff) as u8,
    ]
}

/// Little-endian bytes of a u64.
pub open spec fn u64_le(x: u64) -> Seq<u8> {
    seq![
        (x & 0xff) as u8,
        ((x >> 8) & 0xff) as u8,
        ((x >> 16) & 0xff) as u8,
        ((x >> 24) & 0xff) as u8,
        ((x >> 32) & 0xff) as u8,
        ((x >> 40) & 0xff) as u8,
        ((x >> 48) & 0xff) as u8,
        ((x >> 56) & 0xff) as u8,
    ]
}

/// The u16 whose little-endian bytes are the first two of `s`.
pub open spec fn u16_of_le(s: Seq<u8>) -> u16 {
    (s[0] as u16) | ((s[1] as u16) << 8)
}

/// The u32 whose little-endian bytes are the first four of `s`.
pub open spec fn u32_of_le(s: Seq<u8>) -> u32 {
    (s[0] as u32) | ((s[1] as u32) << 8) | ((s[2] as u32) << 16) | ((s[3] as u32) << 24)
}

/// The u64 whose little-endian bytes are the first eight of `s`.
pub open spec fn u64_of_le(s: Seq<u8>) -> u64 {
    (s[0] as u64) | ((s[1] as u64) << 8) | ((s[2] as u64) << 16) | ((s[3] as u64) << 24) | ((
    s[4] as u64) << 32) | ((s[5] as u64) << 40) | ((s[6] as u64) << 48) | ((s[7] as u64) << 56)
}

pub proof fn lemma_u16_le_roundtrip(x: u16)
    ensures
        u16_of_le(u16_le(x)) == x,
{
    let s = u16_le(x);
    let b0 = s[0];
    let b1 = s[1];
    assert((b0 as u16) | ((b1 as u16) << 8) == x) by (bit_vector)
        requires
            b0 == (x & 0xff) as u8,
            b1 == ((x >> 8) & 0xff) as u8,
    ;
}

pub proof fn lemma_u32_le_roundtrip(x: u32)
    ensures
        u32_of_le(u32_le(x)) == x,
{
    let s = u32_le(x);
    let b0 = s[0];
    let b1 = s[1];
    let b2 = s[2];
    let b3 = s[3];
    assert((b0 as u32) | ((b1 as u32) << 8) | ((b2 as u32) << 16) | ((b3 as u32) << 24) == x)
        by (bit_vector)
        requires
            b0 == (x & 0xff) as u8,
            b1 == ((x >> 8) & 0xff) as u8,
            b2 == ((x >> 16) & 0xff) as u8,
            b3 == ((x >> 24) & 0xff) as u8,
    ;
}

pub proof fn lemma_u64_le_roundtrip(x: u64)
    ensures
        u64_of_le(u64_le(x)) == x,
{
    let s = u64_le(x);
    let b0 = s[0];
    let b1 = s[1];
    let b2 = s[2];
    let b3 = s[3];
    let b4 = s[4];
    let b5 = s[5];
    let b6 = s[6];
    let b7 = s[7];
    assert((b0 as u64) | ((b1 as u64) << 8) | ((b2 as u64) << 16) | ((b3 as u64) << 24) | ((
    b4 as u64) << 32) | ((b5 as u64) << 40) | ((b6 as u64) << 48) | ((b7 as u64) << 56) == x)
        by (bit_vector)
        requires
            b0 == (x & 0xff) as u8,
            b1 == ((x >> 8) & 0xff) as u8,
            b2 == ((x >> 16) & 0xff) as u8,
            b3 == ((x >> 24) & 0xff) as u8,
            b4 == ((x >> 32) & 0xff) as u8,
            b5 == ((x >> 40) & 0xff) as u8,
            b6 == ((x >> 48) & 0xff) as u8,
            b7 == ((x >> 56) & 0xff) as u8,
    ;
}

/// The bootstrap wire encoding of a connection record: each side writes
/// exactly these bytes on the TCP connection before switching to RDMA.
/// Fields in order, little-endian, packed: raddr, rlen, rkey, qp_num, lid,
/// offset, freespace, gid, sending.
pub open spec fn spec_serialize_rdma_info(i: RDMAInfo) -> Seq<u8> {
    u64_le(i.raddr) + u32_le(i.rlen) + u32_le(i.rkey) + u32_le(i.qp_num) + u16_le(i.lid) + u32_le(
        i.offset,
    ) + u32_le(i.freespace) + i.gid.raw@ + seq![if i.sending { 1u8 } else { 0u8 }]
}

pub open spec fn spec_decode_raddr(s: Seq<u8>) -> u64 {
    u64_of_le(s.subrange(0, 8))
}

pub open spec fn spec_decode_rlen(s: Seq<u8>) -> u32 {
    u32_of_le(s.subrange(8, 12))
}

pub open spec fn spec_decode_rkey(s: Seq<u8>) -> u32 {
    u32_of_le(s.subrange(12, 16))
}

pub open spec fn spec_decode_qp_num(s: Seq<u8>) -> u32 {
    u32_of_le(s.subrange(16, 20))
}

pub open spec fn spec_decode_lid(s: Seq<u8>) -> u16 {
    u16_of_le(s.subrange(20, 22))
}

pub open spec fn spec_decode_offset(s: Seq<u8>) -> u32 {
    u32_of_le(s.subrange(22, 26))
}

pub open spec fn spec_decode_freespace(s: Seq<u8>) -> u32 {
    u32_of_le(s.subrange(26, 30))
}

pub open spec fn spec_decode_gid(s: Seq<u8>) -> Seq<u8> {
    s.subrange(30, 46)
}

pub open spec fn spec_decode_sending(s: Seq<u8>) -> bool {
    s[46] != 0
}

/// Wire round trip: decoding the serialized record recovers every field.
pub proof fn lemma_rdma_info_roundtrip(i: RDMAInfo)
    requires
        i.gid.raw@.len() == 16,
    ensures
        spec_decode_raddr(spec_serialize_rdma_info(i)) == i.raddr,
        spec_decode_rlen(spec_serialize_rdma_info(i)) == i.rlen,
        spec_decode_rkey(spec_serialize_rdma_info(i)) == i.rkey,
        spec_decode_qp_num(spec_serialize_rdma_info(i)) == i.qp_num,
        spec_decode_lid(spec_serialize_rdma_info(i)) == i.lid,
        spec_decode_offset(spec_serialize_rdma_info(i)) == i.offset,
        spec_decode_freespace(spec_serialize_rdma_info(i)) == i.freespace,
        spec_decode_gid(spec_serialize_rdma_info(i)) == i.gid.raw@,
        spec_decode_sending(spec_serialize_rdma_info(i)) == i.sending,
{
    let s = spec_serialize_rdma_info(i);
    assert(s.subrange(0, 8) =~= u64_le(i.raddr));
    assert(s.subrange(8, 12) =~= u32_le(i.rlen));
    assert(s.subrange(12, 16) =~= u32_le(i.rkey));
    assert(s.subrange(16, 20) =~= u32_le(i.qp_num));
    assert(s.subrange(20, 22) =~= u16_le(i.lid));
    assert(s.subrange(22, 26) =~= u32_le(i.offset));
    assert(s.subrange(26, 30) =~= u32_le(i.freespace));
    assert(s.subrange(30, 46) =~= i.gid.raw@);
    lemma_u64_le_roundtrip(i.raddr);
    lemma_u32_le_roundtrip(i.rlen);
    lemma_u32_le_roundtrip(i.rkey);
    lemma_u32_le_roundtrip(i.qp_num);
    lemma_u16_le_roundtrip(i.lid);
    lemma_u32_le_roundtrip(i.offset);
    lemma_u32_le_roundtrip(i.freespace);
    assert(s[46] == (if i.sending { 1u8 } else { 0u8 }));
}

pub(crate) fn push_u16_le(v: &mut Vec<u8>, x: u16)
    ensures
        final(v)@ == old(v)@ + u16_le(x),
{
    v.push((x & 0xff) as u8);
    v.push(((x >> 8) & 0xff) as u8);
    proof {
        assert(final(v)@ =~= old(v)@ + u16_le(x));
    }
}

pub(crate) fn push_u32_le(v: &mut Vec<u8>, x: u32)
    ensures
        final(v)@ == old(v)@ + u32_le(x),
{
    v.push((x & 0xff) as u8);
    v.push(((x >> 8) & 0xff) as u8);
    v.push(((x >> 16) & 0xff) as u8);
    v.push(((x >> 24) & 0xff) as u8);
    proof {
        assert(final(v)@ =~= old(v)@ + u32_le(x));
    }
}

pub(crate) fn push_u64_le(v: &mut Vec<u8>, x: u64)
    ensures
        final(v)@ == old(v)@ + u64_le(x),
{
    v.push((x & 0xff) as u8);
    v.push(((x >> 8) & 0xff) as u8);
    v.push(((x >> 16) & 0xff) as u8);
    v.push(((x >> 24) & 0xff) as u8);
    v.push(((x >> 32) & 0xff) as u8);
    v.push(((x >> 40) & 0xff) as u8);
    v.push(((x >> 48) & 0xff) as u8);
    v.push(((x >> 56) & 0xff) as u8);
    proof {
        assert(final(v)@ =~= old(v)@ + u64_le(x));
    }
}

pub(crate) fn read_u16_le(b: &Vec<u8>, off: usize) -> (r: u16)
    requires
        off + 2 <= b@.len(),
        off <= 0x1000,
    ensures
        r == u16_of_le(b@.subrange(off as int, off + 2)),
{
    let r = (b[off] as u16) | ((b[off + 1] as u16) << 8);
    proof {
        let s = b@.subrange(off as int, off + 2);
        assert(s[0] == b@[off as int] && s[1] == b@[off + 1]);
    }
    r
}

pub(crate) fn read_u32_le(b: &Vec<u8>, off: usize) -> (r: u32)
    requires
        off + 4 <= b@.len(),
        off <= 0x1000,
    ensures
        r == u32_of_le(b@.subrange(off as int, off + 4)),
{
    let r = (b[off] as u32) | ((b[off + 1] as u32) << 8) | ((b[off + 2] as u32) << 16) | ((b[off
        + 3] as u32) << 24);
    proof {
        let s = b@.subrange(off as int, off + 4);
        assert(s[0] == b@[off as int] && s[1] == b@[off + 1] && s[2] == b@[off + 2] && s[3] == b@[
            off + 3
        ]);
    }
    r
}

pub(crate) fn read_u64_le(b: &Vec<u8>, off: usize) -> (r: u64)
    requires
        off + 8 <= b@.len(),
        off <= 0x1000,
    ensures
        r == u64_of_le(b@.subrange(off as int, off + 8)),
{
    let r = (b[off] as u64) | ((b[off + 1] as u64) << 8) | ((b[off + 2] as u64) << 16) | ((b[off
        + 3] as u64) << 24) | ((b[off + 4] as u64) << 32) | ((b[off + 5] as u64) << 40) | ((b[off
        + 6] as u64) << 48) | ((b[off + 7] as u64) << 56);
    proof {
        let s = b@.subrange(off as int, off + 8);
        assert(s[0] == b@[off as int] && s[1] == b@[off + 1] && s[2] == b@[off + 2] && s[3] == b@[
            off + 3
        ] && s[4] == b@[off + 4] && s[5] == b@[off + 5] && s[6] == b@[off + 6] && s[7] == b@[off
            + 7]);
    }
    r
}

impl RDMAInfo {
    /// Size of the packed wire record in bytes.
    pub fn Size() -> (r: usize)
        ensures
            r == 47,
    {
        47
    }

    /// Serialize for the bootstrap exchange; exactly the wire encoding.
    pub fn ToBytes(&self) -> (r: Vec<u8>)
        ensures
            r@ == spec_serialize_rdma_info(*self),
            r@.len() == 47,
    {
        let mut v: Vec<u8> = Vec::new();
        push_u64_le(&mut v, self.raddr);
        push_u32_le(&mut v, self.rlen);
        push_u32_le(&mut v, self.rkey);
        push_u32_le(&mut v, self.qp_num);
        push_u16_le(&mut v, self.lid);
        push_u32_le(&mut v, self.offset);
        push_u32_le(&mut v, self.freespace);
        let ghost before_gid = v@;
        let mut k: usize = 0;
        while k < 16
            invariant
                0 <= k <= 16,
                v@ == before_gid + self.gid.raw@.take(k as int),
            decreases 16 - k,
        {
            v.push(self.gid.raw[k]);
            proof {
                assert(self.gid.raw@.take(k + 1).drop_last() =~= self.gid.raw@.take(k as int));
                assert(v@ =~= before_gid + self.gid.raw@.take(k + 1));
            }
            k = k + 1;
        }
        proof {
            assert(self.gid.raw@.take(16) =~= self.gid.raw@);
        }
        v.push(if self.sending {
            1u8
        } else {
            0u8
        });
        proof {
            assert(v@ =~= spec_serialize_rdma_info(*self));
        }
        v
    }

    /// Decode a received wire record into its fields.
    pub fn FromBytes(bytes: &Vec<u8>) -> (r: RDMAInfo)
        requires
            bytes@.len() == 47,
        ensures
            r.raddr == spec_decode_raddr(bytes@),
            r.rlen == spec_decode_rlen(bytes@),
            r.rkey == spec_decode_rkey(bytes@),
            r.qp_num == spec_decode_qp_num(bytes@),
            r.lid == spec_decode_lid(bytes@),
            r.offset == spec_decode_offset(bytes@),
            r.freespace == spec_decode_freespace(bytes@),
            r.gid.raw@ == spec_decode_gid(bytes@),
            r.sending == spec_decode_sending(bytes@),
    {
        let raddr = read_u64_le(bytes, 0);
        let rlen = read_u32_le(bytes, 8);
        let rkey = read_u32_le(bytes, 12);
        let qp_num = read_u32_le(bytes, 16);
        let lid = read_u16_le(bytes, 20);
        let offset = read_u32_le(bytes, 22);
        let freespace = read_u32_le(bytes, 26);
        let mut raw = [0u8; 16];
        let mut k: usize = 0;
        while k < 16
            invariant
                0 <= k <= 16,
                bytes@.len() == 47,
                raw@.len() == 16,
                forall|j: int| 0 <= j < k ==> raw@[j] == bytes@[30 + j],
            decreases 16 - k,
        {
            raw[k] = bytes[30 + k];
            k = k + 1;
        }
        let sending = bytes[46] != 0;
        proof {
            assert(raw@ =~= spec_decode_gid(bytes@));
        }
        RDMAInfo { raddr, rlen, rkey, qp_num, lid, offset, freespace, gid: Gid { raw }, sending }
    }
}

impl Default for RDMAInfo {
    /// The zero record used before the peer's metadata has arrived.
    fn default() -> (r: RDMAInfo)
        ensures
            r.raddr == 0,
            r.rlen == 0,
            r.rkey == 0,
            r.qp_num == 0,
            r.lid == 0,
            r.offset == 0,
            r.freespace == 0,
            r.gid.raw@ == Seq::<u8>::new(16, |i: int| 0u8),
            !r.sending,
    {
        RDMAInfo {
            raddr: 0,
            rlen: 0,
            rkey: 0,
            qp_num: 0,
            lid: 0,
            offset: 0,
            freespace: 0,
            gid: Gid { raw: [0u8; 16] },
            sending: false,
        }
    }
}

/// The little-endian acknowledgement bytes written after the queue pair is
/// ready.
pub fn AckBytes() -> (r: Vec<u8>)
    ensures
        r@ == u64_le(ACK_DATA),
        r@.len() == 8,
{
    let mut v: Vec<u8> = Vec::new();
    push_u64_le(&mut v, ACK_DATA);
    proof {
        assert(v@ =~= u64_le(ACK_DATA));
    }
    v
}

/// Bootstrap progress of one RDMA connection.
#[derive(Clone, Copy, PartialEq, Eq, Structural, Debug)]
pub enum SocketState {
    Init,
    Connect,
    WaitingForRemoteMeta,
    WaitingForRemoteReady,
    Ready,
    Error,
}

/// What a server-side connection needs to finish an accept: the accepted
/// fd and the peer address, enqueued on the listener once the handshake
/// completes. The listener itself is not owned here; the caller holds it.
pub struct RDMAServerSocketInfo {
    pub fd: i32,
    pub addr: TcpSockAddr,
    pub len: u32,
}

/// Which side of the connection this is: a client completing a pending
/// connect request (identified by an opaque handle), or a server-side
/// accept in flight.
pub enum RDMAType {
    Client(u64),
    Server(RDMAServerSocketInfo),
    NoRole,
}

/// The WRITE_IMM the runtime must post: `writeCount` payload bytes from
/// `localOffset` in the write half, landing at `remoteAddr` in the peer's
/// ring, with the returned credit count in the 32-bit immediate data.
#[derive(Clone, Copy, PartialEq, Eq, Structural, Debug)]
pub struct WriteImmReq {
    pub localOffset: u64,
    pub remoteAddr: u64,
    pub writeCount: u32,
    pub readCount: u32,
}

/// What the runtime must do after a writable event on the bootstrap fd.
pub enum WriteAction {
    /// Send these bytes (the local connection record) on the bootstrap fd.
    SendLocalInfo(Vec<u8>),
    /// The connection is ready: flush the write half to the transport.
    FlushWrite,
    /// Nothing; the handshake is waiting for the peer.
    Idle,
}

/// What a readable event on the bootstrap fd means in the current state.
#[derive(Clone, Copy, PartialEq, Eq, Structural, Debug)]
pub enum ReadStep {
    /// Read the peer's 47-byte connection record.
    RecvMeta,
    /// Read the peer's 8-byte acknowledgement.
    RecvAckData,
    /// Data path: drain the fd into the read half.
    RecvData,
}

/// The side effect of reaching Ready, performed by the caller: complete
/// the client's pending connect request, or enqueue the accepted
/// connection on the listening socket's queue and notify EVENT_IN.
pub enum ReadyAction {
    CompleteConnect(u64),
    EnqueueAccept(i32, TcpSockAddr, u32),
}

/// One RDMA data connection: the shared socket buffer, the local record
/// advertised to the peer, the peer's record and our cursor over its
/// ring, the handshake state, and the receive-post bookkeeping.
pub struct RDMADataSock {
    pub fd: i32,
    pub socketBuf: SocketBuff,
    pub localRDMAInfo: RDMAInfo,
    pub remoteRDMAInfo: RDMAInfo,
    pub socketState: SocketState,
    pub rdmaType: RDMAType,
    /// Payload bytes of the WRITE_IMM in flight; consumed from the write
    /// half when its completion arrives.
    pub writeCount: u64,
    /// Receive work requests currently posted on the queue pair.
    pub recvPostedCount: u32,
    /// WRITE_IMMs in flight; the `sending` bit is its only witness.
    pub inflight: Ghost<nat>,
}

impl RDMADataSock {
    /// The peer record is usable: a non-empty ring our cursor fits in.
    pub open spec fn remote_valid(&self) -> bool {
        &&& self.remoteRDMAInfo.rlen > 0
        &&& self.remoteRDMAInfo.offset < self.remoteRDMAInfo.rlen
        &&& self.remoteRDMAInfo.raddr + self.remoteRDMAInfo.rlen <= u64::MAX
    }

    pub open spec fn wf(&self) -> bool {
        &&& self.socketBuf.wf()
        &&& self.localRDMAInfo.rlen == self.socketBuf.readBuf.capacity
        &&& self.remoteRDMAInfo.freespace <= self.remoteRDMAInfo.rlen
        &&& (self.socketState == SocketState::WaitingForRemoteReady || self.socketState
            == SocketState::Ready) ==> self.remote_valid() && self.recvPostedCount == MAX_RECV_WR
        &&& self.inflight@ == (if self.remoteRDMAInfo.sending {
            1nat
        } else {
            0nat
        })
        &&& self.remoteRDMAInfo.sending ==> self.socketState == SocketState::Ready
            && self.writeCount <= self.socketBuf.writeBuf.len
    }

    /// A fresh connection over `socketBuf`. The caller supplies what only
    /// the host knows: the registered address of the read half, its remote
    /// key, the queue pair number, and the port's lid and gid.
    pub fn New(
        fd: i32,
        socketBuf: SocketBuff,
        rdmaType: RDMAType,
        raddr: u64,
        rkey: u32,
        qp_num: u32,
        lid: u16,
        gid: Gid,
    ) -> (r: RDMADataSock)
        requires
            socketBuf.wf(),
        ensures
            r.wf(),
            r.fd == fd,
            r.socketBuf == socketBuf,
            r.socketState == SocketState::Init,
            r.localRDMAInfo.raddr == raddr,
            r.localRDMAInfo.rlen == socketBuf.readBuf.capacity,
            r.localRDMAInfo.rkey == rkey,
            r.localRDMAInfo.qp_num == qp_num,
            r.localRDMAInfo.lid == lid,
            r.localRDMAInfo.offset == 0,
            r.localRDMAInfo.freespace == socketBuf.readBuf.capacity,
            !r.localRDMAInfo.sending,
            r.recvPostedCount == 0,
            r.writeCount == 0,
            r.inflight@ == 0,
            r.rdmaType == rdmaType,
            r.remoteRDMAInfo.raddr == 0,
            r.remoteRDMAInfo.rlen == 0,
            r.remoteRDMAInfo.rkey == 0,
            r.remoteRDMAInfo.qp_num == 0,
            r.remoteRDMAInfo.lid == 0,
            r.remoteRDMAInfo.offset == 0,
            r.remoteRDMAInfo.freespace == 0,
            r.remoteRDMAInfo.gid.raw@ == Seq::<u8>::new(16, |i: int| 0u8),
            !r.remoteRDMAInfo.sending,
    {
        let rlen = socketBuf.ReadBufSize() as u32;
        let localRDMAInfo = RDMAInfo {
            raddr,
            rlen,
            rkey,
            qp_num,
            lid,
            offset: 0,
            freespace: rlen,
            gid,
            sending: false,
        };
        RDMADataSock {
            fd,
            socketBuf,
            localRDMAInfo,
            remoteRDMAInfo: RDMAInfo::default(),
            socketState: SocketState::Init,
            rdmaType,
            writeCount: 0,
            recvPostedCount: 0,
            inflight: Ghost(0),
        }
    }

    pub fn SocketState(&self) -> (r: SocketState)
        ensures
            r == self.socketState,
    {
        self.socketState
    }

    /// A writable event on the bootstrap fd. In `Init` the local record
    /// goes out and the handshake starts; while waiting for the peer there
    /// is nothing to do; once ready, writable means the write half may
    /// drain into the transport.
    pub fn Write(&mut self) -> (r: WriteAction)
        requires
            old(self).wf(),
            old(self).socketState == SocketState::Init || old(self).socketState
                == SocketState::WaitingForRemoteMeta || old(self).socketState
                == SocketState::WaitingForRemoteReady || old(self).socketState
                == SocketState::Ready,
        ensures
            final(self).wf(),
            old(self).socketState == SocketState::Init ==> {
                &&& final(self).socketState == SocketState::WaitingForRemoteMeta
                &&& (r matches WriteAction::SendLocalInfo(b) && b@ == spec_serialize_rdma_info(
                    old(self).localRDMAInfo,
                ))
            },
            old(self).socketState == SocketState::WaitingForRemoteMeta || old(self).socketState
                == SocketState::WaitingForRemoteReady ==> *final(self) == *old(self) && (
            r matches WriteAction::Idle),
            old(self).socketState == SocketState::Ready ==> *final(self) == *old(self) && (
            r matches WriteAction::FlushWrite),
    {
        match self.socketState {
            SocketState::Init => {
                let bytes = self.localRDMAInfo.ToBytes();
                self.socketState = SocketState::WaitingForRemoteMeta;
                WriteAction::SendLocalInfo(bytes)
            },
            SocketState::Ready => WriteAction::FlushWrite,
            _ => WriteAction::Idle,
        }
    }

    /// What a readable event means in the current state. Other states do
    /// not expect reads (the runtime treats them as protocol errors).
    pub fn Read(&self) -> (r: ReadStep)
        requires
            self.socketState == SocketState::WaitingForRemoteMeta || self.socketState
                == SocketState::WaitingForRemoteReady || self.socketState == SocketState::Ready,
        ensures
            self.socketState == SocketState::WaitingForRemoteMeta ==> r == ReadStep::RecvMeta,
            self.socketState == SocketState::WaitingForRemoteReady ==> r == ReadStep::RecvAckData,
            self.socketState == SocketState::Ready ==> r == ReadStep::RecvData,
    {
        match self.socketState {
            SocketState::WaitingForRemoteMeta => ReadStep::RecvMeta,
            SocketState::WaitingForRemoteReady => ReadStep::RecvAckData,
            _ => ReadStep::RecvData,
        }
    }

    /// Take the peer's connection record from the bootstrap bytes. A
    /// record whose cursor does not fit its ring, or whose ring is empty
    /// or wraps the address space, is a protocol error: the error is
    /// latched and the connection is dead.
    pub fn RecvRemoteRDMAInfo(&mut self, bytes: &Vec<u8>) -> (r: Result<(), Error>)
        requires
            old(self).wf(),
            old(self).socketState == SocketState::WaitingForRemoteMeta,
            bytes@.len() == 47,
        ensures
            final(self).wf(),
            ({
                let info_ok = spec_decode_rlen(bytes@) > 0 && spec_decode_offset(bytes@)
                    < spec_decode_rlen(bytes@) && spec_decode_freespace(bytes@)
                    <= spec_decode_rlen(bytes@) && spec_decode_raddr(bytes@) + spec_decode_rlen(
                    bytes@,
                ) <= u64::MAX;
                if info_ok {
                    &&& r is Ok
                    &&& final(self).socketState == SocketState::WaitingForRemoteMeta
                    &&& final(self).remote_valid()
                    &&& final(self).remoteRDMAInfo.raddr == spec_decode_raddr(bytes@)
                    &&& final(self).remoteRDMAInfo.rlen == spec_decode_rlen(bytes@)
                    &&& final(self).remoteRDMAInfo.rkey == spec_decode_rkey(bytes@)
                    &&& final(self).remoteRDMAInfo.qp_num == spec_decode_qp_num(bytes@)
                    &&& final(self).remoteRDMAInfo.offset == spec_decode_offset(bytes@)
                    &&& final(self).remoteRDMAInfo.freespace == spec_decode_freespace(bytes@)
                    &&& !final(self).remoteRDMAInfo.sending
                    &&& final(self).socketBuf.err == old(self).socketBuf.err
                } else {
                    &&& r == Result::<(), Error>::Err(Error::SysError(SysErr::EINVAL))
                    &&& final(self).socketState == SocketState::Error
                    &&& final(self).socketBuf.err != 0
                }
            }),
    {
        let mut info = RDMAInfo::FromBytes(bytes);
        if info.rlen == 0 || info.offset >= info.rlen || info.freespace > info.rlen || !(info.raddr
            <= u64::MAX - info.rlen as u64) {
            self.socketBuf.SetErr(SysErr::EINVAL);
            self.socketState = SocketState::Error;
            return Err(Error::SysError(SysErr::EINVAL));
        }
        // the peer's sending bit describes its own cursor, not ours
        info.sending = false;
        self.remoteRDMAInfo = info;
        Ok(())
    }

    /// The queue pair has been transitioned by the runtime; post the full
    /// receive depth and move on to waiting for the peer's acknowledgement
    /// (the caller sends ours, `AckBytes`, right after).
    pub fn SetupRDMA(&mut self)
        requires
            old(self).wf(),
            old(self).socketState == SocketState::WaitingForRemoteMeta,
            old(self).remote_valid(),
        ensures
            final(self).wf(),
            final(self).socketState == SocketState::WaitingForRemoteReady,
            final(self).recvPostedCount == MAX_RECV_WR,
            final(self).socketBuf == old(self).socketBuf,
            final(self).remoteRDMAInfo == old(self).remoteRDMAInfo,
    {
        self.recvPostedCount = MAX_RECV_WR;
        self.socketState = SocketState::WaitingForRemoteReady;
    }

    /// The peer's acknowledgement arrived: the connection is ready. The
    /// returned action completes the connect or enqueues the accept; a
    /// connection with no role cannot reach this point (the runtime never
    /// arms one).
    pub fn RecvAck(&mut self, data: u64) -> (r: ReadyAction)
        requires
            old(self).wf(),
            old(self).socketState == SocketState::WaitingForRemoteReady,
            data == ACK_DATA,
            !(old(self).rdmaType is NoRole),
        ensures
            final(self).wf(),
            final(self).socketState == SocketState::Ready,
            final(self).socketBuf == old(self).socketBuf,
            final(self).remoteRDMAInfo == old(self).remoteRDMAInfo,
            final(self).recvPostedCount == old(self).recvPostedCount,
            old(self).rdmaType matches RDMAType::Client(h) ==> r == ReadyAction::CompleteConnect(
                h,
            ),
            old(self).rdmaType matches RDMAType::Server(info) ==> r matches
                ReadyAction::EnqueueAccept(fd, _addr, len) && fd == info.fd && len == info.len,
    {
        self.socketState = SocketState::Ready;
        match &self.rdmaType {
            RDMAType::Client(h) => ReadyAction::CompleteConnect(*h),
            RDMAType::Server(info) => ReadyAction::EnqueueAccept(info.fd, info.addr, info.len),
            RDMAType::NoRole => ReadyAction::CompleteConnect(0),
        }
    }

    /// Issue the next WRITE_IMM if the ring or the pending credits call
    /// for one. Requires the write lock (modelled by `&mut`) and no send
    /// in flight. Clamps the payload to the peer's free space, advances
    /// the cursor modulo the peer's ring, and marks the send in flight.
    pub fn RDMASendLocked(&mut self) -> (r: Option<WriteImmReq>)
        requires
            old(self).wf(),
            old(self).socketState == SocketState::Ready,
            !old(self).remoteRDMAInfo.sending,
            old(self).socketBuf.consumeReadData <= u32::MAX,
        ensures
            final(self).wf(),
            final(self).socketState == SocketState::Ready,
            final(self).socketBuf.consumeReadData == 0,
            final(self).socketBuf.readBuf == old(self).socketBuf.readBuf,
            final(self).socketBuf.writeBuf == old(self).socketBuf.writeBuf,
            final(self).socketBuf.err == old(self).socketBuf.err,
            ({
                let credits = old(self).socketBuf.consumeReadData;
                let contig = old(self).socketBuf.writeBuf.spec_contig_data();
                let sendable = min64(contig, old(self).remoteRDMAInfo.freespace as u64);
                if credits > 0 || sendable > 0 {
                    &&& r == Some(
                        WriteImmReq {
                            localOffset: old(self).socketBuf.writeBuf.head,
                            remoteAddr: (old(self).remoteRDMAInfo.raddr + old(
                                self,
                            ).remoteRDMAInfo.offset) as u64,
                            writeCount: sendable as u32,
                            readCount: credits as u32,
                        },
                    )
                    &&& final(self).remoteRDMAInfo.sending
                    &&& final(self).remoteRDMAInfo.freespace == old(
                        self,
                    ).remoteRDMAInfo.freespace - sendable
                    &&& final(self).remoteRDMAInfo.offset == (old(self).remoteRDMAInfo.offset
                        + sendable) % (old(self).remoteRDMAInfo.rlen as int)
                    &&& final(self).writeCount == sendable
                    &&& final(self).inflight@ == 1
                    &&& final(self).socketBuf.creditsReturned@ == old(
                        self,
                    ).socketBuf.creditsReturned@ + credits
                } else {
                    &&& r is None
                    &&& final(self).remoteRDMAInfo == old(self).remoteRDMAInfo
                    &&& final(self).inflight@ == 0
                }
            }),
    {
        let readCount = self.socketBuf.GetAndClearConsumeReadData();
        let (addr, mut len) = self.socketBuf.GetAvailableWriteBuf();
        if readCount > 0 || len > 0 {
            if len > self.remoteRDMAInfo.freespace as u64 {
                len = self.remoteRDMAInfo.freespace as u64;
            }
            if len != 0 || readCount > 0 {
                let req = WriteImmReq {
                    localOffset: addr,
                    remoteAddr: self.remoteRDMAInfo.raddr + self.remoteRDMAInfo.offset as u64,
                    writeCount: len as u32,
                    readCount: readCount as u32,
                };
                self.remoteRDMAInfo.freespace = self.remoteRDMAInfo.freespace - len as u32;
                self.remoteRDMAInfo.offset = ((self.remoteRDMAInfo.offset as u64 + len)
                    % self.remoteRDMAInfo.rlen as u64) as u32;
                self.remoteRDMAInfo.sending = true;
                self.writeCount = len;
                proof {
                    self.inflight@ = 1;
                }
                return Some(req);
            }
        }
        None
    }

    /// Issue a WRITE_IMM unless one is already in flight: with a send in
    /// flight nothing happens; otherwise exactly as `RDMASendLocked`.
    pub fn RDMASend(&mut self) -> (r: Option<WriteImmReq>)
        requires
            old(self).wf(),
            old(self).socketState == SocketState::Ready,
            old(self).socketBuf.consumeReadData <= u32::MAX,
        ensures
            final(self).wf(),
            final(self).socketState == SocketState::Ready,
            old(self).remoteRDMAInfo.sending ==> *final(self) == *old(self) && r is None,
            !old(self).remoteRDMAInfo.sending ==> {
                &&& final(self).socketBuf.consumeReadData == 0
                &&& final(self).socketBuf.readBuf == old(self).socketBuf.readBuf
                &&& final(self).socketBuf.writeBuf == old(self).socketBuf.writeBuf
                &&& final(self).socketBuf.err == old(self).socketBuf.err
                &&& ({
                    let credits = old(self).socketBuf.consumeReadData;
                    let contig = old(self).socketBuf.writeBuf.spec_contig_data();
                    let sendable = min64(contig, old(self).remoteRDMAInfo.freespace as u64);
                    if credits > 0 || sendable > 0 {
                        &&& r == Some(
                            WriteImmReq {
                                localOffset: old(self).socketBuf.writeBuf.head,
                                remoteAddr: (old(self).remoteRDMAInfo.raddr + old(
                                    self,
                                ).remoteRDMAInfo.offset) as u64,
                                writeCount: sendable as u32,
                                readCount: credits as u32,
                            },
                        )
                        &&& final(self).remoteRDMAInfo.sending
                        &&& final(self).remoteRDMAInfo.freespace == old(
                            self,
                        ).remoteRDMAInfo.freespace - sendable
                        &&& final(self).remoteRDMAInfo.offset == (old(self).remoteRDMAInfo.offset
                            + sendable) % (old(self).remoteRDMAInfo.rlen as int)
                        &&& final(self).writeCount == sendable
                        &&& final(self).inflight@ == 1
                    } else {
                        &&& r is None
                        &&& final(self).remoteRDMAInfo == old(self).remoteRDMAInfo
                        &&& final(self).inflight@ == 0
                    }
                })
            },
    {
        if self.remoteRDMAInfo.sending {
            return None;
        }
        self.RDMASendLocked()
    }

    /// Our WRITE_IMM completed: the in-flight bytes are acknowledged, so
    /// consume them from the write half. Returns whether EVENT_OUT must be
    /// notified (the ring went full to non-full) and the follow-up
    /// WRITE_IMM if more data is already waiting (coalescing).
    pub fn ProcessRDMAWriteImmFinish(&mut self) -> (r: (bool, Option<WriteImmReq>))
        requires
            old(self).wf(),
            old(self).socketState == SocketState::Ready,
            old(self).remoteRDMAInfo.sending,
            old(self).socketBuf.consumeReadData <= u32::MAX,
        ensures
            final(self).wf(),
            final(self).socketState == SocketState::Ready,
            r.0 == (old(self).socketBuf.writeBuf.len == old(self).socketBuf.writeBuf.capacity
                && old(self).writeCount > 0),
            final(self).socketBuf.writeBuf.len == old(self).socketBuf.writeBuf.len - old(
                self,
            ).writeCount,
            final(self).socketBuf.writeBuf.consumed@ == old(self).socketBuf.writeBuf.consumed@
                + old(self).writeCount,
            r.1 is Some ==> final(self).remoteRDMAInfo.sending && final(self).inflight@ == 1,
            r.1 is None ==> !final(self).remoteRDMAInfo.sending && final(self).inflight@ == 0,
    {
        let wc = self.writeCount;
        self.remoteRDMAInfo.sending = false;
        self.writeCount = 0;
        proof {
            self.inflight@ = 0;
        }
        let (trigger, _addr, remaining) = self.socketBuf.ConsumeAndGetAvailableWriteBuf(wc);
        let resend = if remaining > 0 {
            self.RDMASendLocked()
        } else {
            None
        };
        (trigger, resend)
    }

    /// The peer's WRITE_IMM landed: one receive completed, so repost it
    /// (the depth stays at MAX_RECV_WR). `recvCount` payload bytes were
    /// written into our read half; the immediate data returned
    /// `writeConsumeCount` credit bytes. Returns the readiness bits to
    /// notify and the WRITE_IMM to post if returned credit unblocked a
    /// stalled send.
    ///
    /// A correct peer never writes more than our advertised free space and
    /// never returns more credit than it still owes; both bounds are
    /// preconditions.
    pub fn ProcessRDMARecvWriteImm(&mut self, recvCount: u64, writeConsumeCount: u64) -> (r: (
        EventMask,
        Option<WriteImmReq>,
    ))
        requires
            old(self).wf(),
            old(self).socketState == SocketState::Ready,
            !old(self).socketBuf.rClosed,
            recvCount <= old(self).socketBuf.readBuf.spec_free(),
            writeConsumeCount <= old(self).remoteRDMAInfo.rlen - old(
                self,
            ).remoteRDMAInfo.freespace,
            old(self).socketBuf.consumeReadData <= u32::MAX,
        ensures
            final(self).wf(),
            final(self).socketState == SocketState::Ready,
            final(self).recvPostedCount == MAX_RECV_WR,
            final(self).socketBuf.readBuf.len == old(self).socketBuf.readBuf.len + recvCount,
            r.1 is None ==> final(self).remoteRDMAInfo.freespace == old(
                self,
            ).remoteRDMAInfo.freespace + writeConsumeCount,
            final(self).remoteRDMAInfo.freespace <= old(self).remoteRDMAInfo.freespace
                + writeConsumeCount,
            r.0 & EVENT_IN != 0 <==> (recvCount > 0 && old(self).socketBuf.readBuf.len == 0),
            r.1 is Some ==> old(self).remoteRDMAInfo.freespace == 0 && writeConsumeCount > 0 && !old(
                self,
            ).remoteRDMAInfo.sending,
            old(self).remoteRDMAInfo.freespace == 0 && writeConsumeCount > 0 && !old(
                self,
            ).remoteRDMAInfo.sending ==> (r.1 is Some <==> (old(self).socketBuf.consumeReadData
                > 0 || old(self).socketBuf.writeBuf.spec_contig_data() > 0)),
            !(old(self).remoteRDMAInfo.freespace == 0 && writeConsumeCount > 0 && !old(
                self,
            ).remoteRDMAInfo.sending) ==> r.1 is None && final(self).remoteRDMAInfo.sending == old(
                self,
            ).remoteRDMAInfo.sending,
    {
        let mut notify: u64 = 0;
        if recvCount > 0 {
            let (trigger, _a, _c) = self.socketBuf.ProduceAndGetFreeReadBuf(recvCount);
            if trigger {
                notify = EVENT_IN;
            }
        }
        let mut resend: Option<WriteImmReq> = None;
        if writeConsumeCount > 0 {
            let kick = self.remoteRDMAInfo.freespace == 0;
            self.remoteRDMAInfo.freespace = self.remoteRDMAInfo.freespace + writeConsumeCount
                as u32;
            if kick && !self.remoteRDMAInfo.sending {
                resend = self.RDMASendLocked();
            }
        }
        proof {
            assert(notify == 0 || notify == EVENT_IN);
            assert(EVENT_IN & EVENT_IN == EVENT_IN) by (bit_vector);
            assert(0u64 & EVENT_IN == 0) by (bit_vector);
        }
        (notify, resend)
    }

    /// One host read into the read half completed (the non-RDMA data
    /// path and the bootstrap fd's drain). `count` is the contiguous free
    /// region handed to the host, `rc` the read's result. Returns the
    /// readiness bits to notify and whether the drain loop continues.
    pub fn ReadData(&mut self, rc: i64, count: u64) -> (r: (EventMask, bool))
        requires
            old(self).wf(),
            !old(self).socketBuf.rClosed,
            count == old(self).socketBuf.readBuf.spec_contig_free(),
            count > 0,
            rc <= count,
            rc < 0 ==> -rc <= i32::MAX,
        ensures
            final(self).wf(),
            rc == 0 ==> final(self).socketBuf.rClosed && r.1 == false && r.0 == (if old(
                self,
            ).socketBuf.readBuf.len > 0 {
                EVENT_IN
            } else {
                EVENT_HUP
            }),
            rc < 0 && -rc == SysErr::EAGAIN as int ==> r == (0u64, false) && final(self).socketBuf
                == old(self).socketBuf,
            rc < 0 && -rc != SysErr::EAGAIN as int ==> r == ((EVENT_ERR | EVENT_IN), false)
                && final(self).socketBuf.err != 0,
            rc > 0 ==> {
                &&& final(self).socketBuf.readBuf.len == old(self).socketBuf.readBuf.len + rc
                &&& (r.0 == EVENT_IN <==> old(self).socketBuf.readBuf.len == 0)
                &&& r.1 == (rc == count && final(self).socketBuf.readBuf.spec_contig_free() > 0)
            },
    {
        if rc == 0 {
            self.socketBuf.SetRClosed();
            if self.socketBuf.HasReadData() {
                return (EVENT_IN, false);
            }
            return (EVENT_HUP, false);
        }
        if rc < 0 {
            let errno = (-rc) as i32;
            if errno == SysErr::EAGAIN {
                return (0, false);
            }
            self.socketBuf.SetErr(errno);
            return (EVENT_ERR | EVENT_IN, false);
        }
        let n = rc as u64;
        let (trigger, _addr, more) = self.socketBuf.ProduceAndGetFreeReadBuf(n);
        let notify: u64 = if trigger {
            EVENT_IN
        } else {
            0
        };
        if n < count {
            return (notify, false);
        }
        (notify, more > 0)
    }

    /// One host write from the write half completed (the non-RDMA data
    /// path). `count` is the contiguous data region handed to the host,
    /// `rc` the write's result. Returns the readiness bits to notify and
    /// whether the drain loop continues.
    pub fn WriteData(&mut self, rc: i64, count: u64) -> (r: (EventMask, bool))
        requires
            old(self).wf(),
            !old(self).remoteRDMAInfo.sending,
            count == old(self).socketBuf.writeBuf.spec_contig_data(),
            count > 0,
            rc <= count,
            rc < 0 ==> -rc <= i32::MAX,
        ensures
            final(self).wf(),
            rc == 0 ==> final(self).socketBuf.wClosed && r.1 == false && r.0 == (if old(
                self,
            ).socketBuf.writeBuf.len > 0 {
                EVENT_OUT
            } else {
                EVENT_HUP
            }),
            rc < 0 && -rc == SysErr::EAGAIN as int ==> r == (0u64, false) && final(self).socketBuf
                == old(self).socketBuf,
            rc < 0 && -rc != SysErr::EAGAIN as int ==> r == ((EVENT_ERR | EVENT_IN), false)
                && final(self).socketBuf.err != 0,
            rc > 0 ==> {
                &&& final(self).socketBuf.writeBuf.len == old(self).socketBuf.writeBuf.len - rc
                &&& (r.0 & EVENT_OUT != 0 <==> old(self).socketBuf.writeBuf.len == old(
                    self,
                ).socketBuf.writeBuf.capacity)
                &&& ((r.0 & EVENT_PENDING_SHUTDOWN != 0) <==> (rc == count && final(self).socketBuf.writeBuf.len == 0 && old(self).socketBuf.pendingWShutdown))
                &&& r.1 == (rc == count && final(self).socketBuf.writeBuf.len > 0)
            },
    {
        if rc == 0 {
            self.socketBuf.SetWClosed();
            if self.socketBuf.HasWriteData() {
                return (EVENT_OUT, false);
            }
            return (EVENT_HUP, false);
        }
        if rc < 0 {
            let errno = (-rc) as i32;
            if errno == SysErr::EAGAIN {
                return (0, false);
            }
            self.socketBuf.SetErr(errno);
            return (EVENT_ERR | EVENT_IN, false);
        }
        let n = rc as u64;
        let (trigger, _addr, remaining) = self.socketBuf.ConsumeAndGetAvailableWriteBuf(n);
        let mut notify: u64 = if trigger {
            EVENT_OUT
        } else {
            0
        };
        if n < count {
            proof {
                lemma_out_ps_bits(notify);
            }
            return (notify, false);
        }
        if remaining == 0 {
            if self.socketBuf.PendingWriteShutdown() {
                notify = notify + EVENT_PENDING_SHUTDOWN;
            }
            proof {
                lemma_out_ps_bits(notify);
            }
            return (notify, false);
        }
        proof {
            lemma_out_ps_bits(notify);
        }
        (notify, true)
    }

    /// Dispatch a readiness event from the host: a latched error beats
    /// everything (notify EVENT_ERR|EVENT_IN and stop); otherwise handle
    /// the write side, then the read side.
    pub fn Notify(&self, eventmask: EventMask) -> (r: (bool, bool, bool))
        ensures
            r.0 == (self.socketBuf.err != 0),
            r.1 == (self.socketBuf.err == 0 && eventmask & EVENT_WRITE != 0),
            r.2 == (self.socketBuf.err == 0 && eventmask & EVENT_READ != 0),
    {
        if self.socketBuf.Error() != 0 {
            return (true, false, false);
        }
        (false, eventmask & EVENT_WRITE != 0, eventmask & EVENT_READ != 0)
    }
}

/// Helper for the readiness arithmetic in `WriteData`: with only the
/// EVENT_OUT bit possibly set, adding EVENT_PENDING_SHUTDOWN sets exactly
/// that bit.
proof fn lemma_out_ps_bits(notify: u64)
    requires
        notify == 0 || notify == EVENT_OUT || notify == EVENT_OUT + EVENT_PENDING_SHUTDOWN
            || notify == EVENT_PENDING_SHUTDOWN,
    ensures
        notify & EVENT_OUT != 0 <==> (notify == EVENT_OUT || notify == EVENT_OUT
            + EVENT_PENDING_SHUTDOWN),
        notify & EVENT_PENDING_SHUTDOWN != 0 <==> (notify == EVENT_PENDING_SHUTDOWN || notify
            == EVENT_OUT + EVENT_PENDING_SHUTDOWN),
{
    assert((0u64 & 0x4u64 == 0) && (0u64 & 0x10000u64 == 0) && (0x4u64 & 0x4u64 != 0) && (0x4u64
        & 0x10000u64 == 0) && (0x10004u64 & 0x4u64 != 0) && (0x10004u64 & 0x10000u64 != 0) && (
    0x10000u64 & 0x4u64 == 0) && (0x10000u64 & 0x10000u64 != 0)) by (bit_vector);
}

/// A listening socket on the RDMA path: the host fd and the accept queue
/// shared with the guest.
pub struct RDMAServerSock {
    pub fd: i32,
    pub acceptQueue: AcceptQueue,
}

impl RDMAServerSock {
    pub fn New(fd: i32, acceptQueue: AcceptQueue) -> (r: RDMAServerSock)
        requires
            acceptQueue.wf(),
        ensures
            r.fd == fd,
            r.acceptQueue == acceptQueue,
            r.acceptQueue.wf(),
    {
        RDMAServerSock { fd, acceptQueue }
    }

    /// Before each host accept: a latched error surfaces EVENT_ERR|EVENT_IN
    /// and stops the loop; otherwise accept only while the queue has space.
    pub fn AcceptCheck(&self) -> (r: (bool, EventMask))
        ensures
            self.acceptQueue.err != 0 ==> r == (false, (EVENT_ERR | EVENT_IN)),
            self.acceptQueue.err == 0 ==> r == (
                self.acceptQueue.queue@.len() < self.acceptQueue.queueLen,
                0u64,
            ),
    {
        if self.acceptQueue.Error() != 0 {
            return (false, EVENT_ERR | EVENT_IN);
        }
        (self.acceptQueue.HasSpace(), 0)
    }

    /// The host accept failed. EAGAIN just ends the loop; any other errno
    /// is latched on the queue and EVENT_ERR|EVENT_IN notified.
    pub fn AcceptError(&mut self, errno: i32) -> (r: EventMask)
        requires
            old(self).acceptQueue.wf(),
            errno > 0,
        ensures
            final(self).acceptQueue.wf(),
            final(self).fd == old(self).fd,
            errno == SysErr::EAGAIN ==> r == 0u64 && final(self).acceptQueue == old(
                self,
            ).acceptQueue,
            errno != SysErr::EAGAIN ==> r == (EVENT_ERR | EVENT_IN) && final(self).acceptQueue.err
                != 0,
    {
        if errno == SysErr::EAGAIN {
            return 0;
        }
        self.acceptQueue.SetErr(errno);
        EVENT_ERR | EVENT_IN
    }

    /// The host accepted a connection. Without RDMA it goes straight onto
    /// the accept queue (EVENT_IN when the queue was empty); with RDMA the
    /// enqueue waits for the handshake, so the queue is untouched and the
    /// loop continues.
    pub fn AcceptOne(
        &mut self,
        fd: i32,
        addr: TcpSockAddr,
        len: u32,
        sockBuf: SocketBuff,
        rdmaEnabled: bool,
    ) -> (r: (EventMask, bool))
        requires
            old(self).acceptQueue.wf(),
            sockBuf.wf(),
            len <= 128,
        ensures
            final(self).acceptQueue.wf(),
            final(self).fd == old(self).fd,
            rdmaEnabled ==> r == (0u64, true) && final(self).acceptQueue == old(self).acceptQueue,
            !rdmaEnabled && old(self).acceptQueue.err == 0 && old(self).acceptQueue.queue@.len()
                < old(self).acceptQueue.queueLen ==> {
                &&& final(self).acceptQueue.queue@.len() == old(self).acceptQueue.queue@.len() + 1
                &&& (r.0 == EVENT_IN <==> old(self).acceptQueue.queue@.len() == 0)
                &&& r.1 == (old(self).acceptQueue.queue@.len() + 1 < old(
                    self,
                ).acceptQueue.queueLen)
            },
            !rdmaEnabled && (old(self).acceptQueue.err != 0 || old(self).acceptQueue.queue@.len()
                >= old(self).acceptQueue.queueLen) ==> r == (0u64, false) && final(self).acceptQueue
                == old(self).acceptQueue,
    {
        if rdmaEnabled {
            return (0, true);
        }
        let (trigger, hasSpace) = self.acceptQueue.EnqSocket(fd, addr, len, sockBuf);
        let notify: u64 = if trigger {
            EVENT_IN
        } else {
            0
        };
        (notify, hasSpace)
    }
}

/// Single-flight law: a connection never has more than one WRITE_IMM in
/// flight, and the `sending` bit is exactly its witness.
pub proof fn lemma_single_flight(s: RDMADataSock)
    requires
        s.wf(),
    ensures
        s.inflight@ <= 1,
        s.remoteRDMAInfo.sending <==> s.inflight@ == 1,
{
}

/// Credit law, local half: what we believe about the peer's free space
/// never exceeds its ring length, so the send clamp keeps every WRITE_IMM
/// inside the peer's buffer.
pub proof fn lemma_credit_limit(s: RDMADataSock)
    requires
        s.wf(),
    ensures
        s.remoteRDMAInfo.freespace <= s.remoteRDMAInfo.rlen,
{
}

/// Receive-depth law: a ready connection always has the full receive
/// depth posted (each completion is reposted within its handler).
pub proof fn lemma_recv_depth(s: RDMADataSock)
    requires
        s.wf(),
        s.socketState == SocketState::Ready,
    ensures
        s.recvPostedCount == MAX_RECV_WR,
{
}

} // verus!
