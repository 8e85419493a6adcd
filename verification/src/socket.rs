//! The per-socket state machine and the socket operations: transport
//! selection at listen/connect time, the buffered receive and send paths,
//! address bookkeeping, socket options, readiness, and event registration.
//!
//! Host syscalls (connect, listen, accept4, recvmsg, ...) are made by the
//! runtime; the functions here take the host results as arguments and
//! perform every decision: which transport a socket moves to, how
//! addresses are truncated and copied, what a receive returns, when a
//! caller must block, and how errors are surfaced.
use vstd::prelude::*;

use crate::accept_queue::AcceptItem;
use crate::accept_queue::AcceptQueue;
use crate::linux_def::AFType;
use crate::linux_def::Error;
use crate::linux_def::EventMask;
use crate::linux_def::LibcConst;
use crate::linux_def::MsgType;
use crate::linux_def::SockType;
use crate::linux_def::SocketType;
use crate::linux_def::SocketFlags;
use crate::linux_def::SocketSize;
use crate::linux_def::SysErr;
use crate::linux_def::SIZEOF_SOCKADDR;
use crate::socket_buf::min64;
use crate::socket_buf::spec_fresh_buf;
use crate::socket_buf::SocketBuff;
use crate::socket_buf::DEFAULT_BUF_PAGE_COUNT;
use crate::waiter::Queue;

verus! {

/// The process-global configuration switches the socket layer reads.
/// They are fixed before any socket exists.
#[derive(Clone, Copy, PartialEq, Eq, Structural, Debug)]
pub struct Config {
    pub EnableRDMA: bool,
    pub UringIO: bool,
    pub AsyncAccept: bool,
}

/// A validated socket address: the family-sized prefix of the raw
/// sockaddr bytes the caller supplied.
pub struct SockAddr {
    pub data: Vec<u8>,
}

/// The bytes `GetAddr` keeps for a raw sockaddr, if it accepts it:
/// 16 bytes for INET, 28 for INET6, everything for UNIX.
pub open spec fn spec_get_addr(bytes: Seq<u8>) -> Option<Seq<u8>> {
    if bytes.len() == 0 {
        Option::None
    } else if bytes[0] == 2 {
        if bytes.len() < 16 {
            Option::None
        } else {
            Option::Some(bytes.subrange(0, 16))
        }
    } else if bytes[0] == 10 {
        if bytes.len() < 28 {
            Option::None
        } else {
            Option::Some(bytes.subrange(0, 28))
        }
    } else if bytes[0] == 1 {
        Option::Some(bytes)
    } else {
        Option::None
    }
}

impl SockAddr {
    pub fn Len(&self) -> (r: usize)
        ensures
            r == self.data@.len(),
    {
        self.data.len()
    }

    /// The serialized address: exactly the validated bytes.
    pub fn ToVec(&self) -> (r: Vec<u8>)
        ensures
            r@ == self.data@,
    {
        let n = self.data.len();
        let mut r: Vec<u8> = Vec::new();
        let mut i: usize = 0;
        while i < n
            invariant
                n == self.data@.len(),
                0 <= i <= n,
                r@ == self.data@.take(i as int),
            decreases n - i,
        {
            r.push(self.data[i]);
            proof {
                assert(r@ =~= self.data@.take(i + 1));
            }
            i = i + 1;
        }
        proof {
            assert(self.data@.take(n as int) =~= self.data@);
        }
        r
    }
}

/// Parse a raw sockaddr: keep the family-sized prefix, reject a buffer
/// shorter than its family's sockaddr, and reject unknown families.
/// The family is read from the first byte, as the socket layer does.
pub fn GetAddr(family: i16, bytes: &Vec<u8>) -> (r: Result<SockAddr, Error>)
    requires
        bytes@.len() > 0,
        family == bytes@[0] as i16,
    ensures
        match spec_get_addr(bytes@) {
            Option::Some(kept) => r matches Ok(a) && a.data@ == kept,
            Option::None => r matches Err(e) && (e == Error::SysError(SysErr::EINVAL) || e
                == Error::SysError(SysErr::EAFNOSUPPORT)),
        },
{
    let keep: usize = if family == AFType::AF_INET as i16 {
        if bytes.len() < SocketSize::SIZEOF_SOCKADDR_INET4 {
            return Err(Error::SysError(SysErr::EINVAL));
        }
        SocketSize::SIZEOF_SOCKADDR_INET4
    } else if family == AFType::AF_INET6 as i16 {
        if bytes.len() < SocketSize::SIZEOF_SOCKADDR_INET6 {
            return Err(Error::SysError(SysErr::EINVAL));
        }
        SocketSize::SIZEOF_SOCKADDR_INET6
    } else if family == AFType::AF_UNIX as i16 {
        bytes.len()
    } else {
        return Err(Error::SysError(SysErr::EAFNOSUPPORT));
    };
    let mut data: Vec<u8> = Vec::new();
    let mut i: usize = 0;
    while i < keep
        invariant
            keep <= bytes@.len(),
            0 <= i <= keep,
            data@ == bytes@.take(i as int),
        decreases keep - i,
    {
        data.push(bytes[i]);
        proof {
            assert(data@ =~= bytes@.take(i + 1));
        }
        i = i + 1;
    }
    proof {
        assert(bytes@.take(keep as int) =~= bytes@.subrange(0, keep as int));
        assert(bytes@.take(bytes@.len() as int) =~= bytes@);
    }
    Ok(SockAddr { data })
}

/// Truncate a sockaddr for the host: INET and INET6 addresses longer than
/// the largest inet sockaddr are silently cut to that size; everything
/// else passes through whole.
pub fn TruncateSockAddr(family: i32, sockaddr: &Vec<u8>) -> (r: Vec<u8>)
    ensures
        (family == AFType::AF_INET || family == AFType::AF_INET6) && sockaddr@.len()
            > SIZEOF_SOCKADDR ==> r@ == sockaddr@.subrange(0, SIZEOF_SOCKADDR as int),
        !((family == AFType::AF_INET || family == AFType::AF_INET6) && sockaddr@.len()
            > SIZEOF_SOCKADDR) ==> r@ == sockaddr@,
{
    let keep: usize = if (family == AFType::AF_INET || family == AFType::AF_INET6)
        && sockaddr.len() > SIZEOF_SOCKADDR {
        SIZEOF_SOCKADDR
    } else {
        sockaddr.len()
    };
    let mut r: Vec<u8> = Vec::new();
    let mut i: usize = 0;
    while i < keep
        invariant
            keep <= sockaddr@.len(),
            0 <= i <= keep,
            r@ == sockaddr@.take(i as int),
        decreases keep - i,
    {
        r.push(sockaddr[i]);
        proof {
            assert(r@ =~= sockaddr@.take(i + 1));
        }
        i = i + 1;
    }
    proof {
        assert(sockaddr@.take(keep as int) =~= sockaddr@.subrange(0, keep as int));
        assert(sockaddr@.take(sockaddr@.len() as int) =~= sockaddr@);
    }
    r
}

/// A socket's transport state: where on the lifecycle between a fresh
/// TCP socket and a buffered data socket it stands, with the per-variant
/// resources (the accept queue of a listener, the socket buffer of a
/// buffered connection) owned by the variant.
pub enum SocketBufType {
    Unknown,
    NoTCP,
    TCPInit,
    TCPNormalServer,
    TCPUringlServer(AcceptQueue),
    TCPRDMAServer(AcceptQueue),
    TCPNormalData,
    Uring(SocketBuff),
    RDMA(SocketBuff),
}

/// The variant alone, for the lifecycle relation.
#[derive(Clone, Copy, PartialEq, Eq, Structural, Debug)]
pub enum SocketBufKind {
    Unknown,
    NoTCP,
    TCPInit,
    TCPNormalServer,
    TCPUringlServer,
    TCPRDMAServer,
    TCPNormalData,
    Uring,
    RDMA,
}

pub open spec fn kind_of(s: SocketBufType) -> SocketBufKind {
    match s {
        SocketBufType::Unknown => SocketBufKind::Unknown,
        SocketBufType::NoTCP => SocketBufKind::NoTCP,
        SocketBufType::TCPInit => SocketBufKind::TCPInit,
        SocketBufType::TCPNormalServer => SocketBufKind::TCPNormalServer,
        SocketBufType::TCPUringlServer(_) => SocketBufKind::TCPUringlServer,
        SocketBufType::TCPRDMAServer(_) => SocketBufKind::TCPRDMAServer,
        SocketBufType::TCPNormalData => SocketBufKind::TCPNormalData,
        SocketBufType::Uring(_) => SocketBufKind::Uring,
        SocketBufType::RDMA(_) => SocketBufKind::RDMA,
    }
}

pub open spec fn is_server_kind(k: SocketBufKind) -> bool {
    k == SocketBufKind::TCPNormalServer || k == SocketBufKind::TCPUringlServer || k
        == SocketBufKind::TCPRDMAServer
}

pub open spec fn is_buffered_kind(k: SocketBufKind) -> bool {
    k == SocketBufKind::Uring || k == SocketBufKind::RDMA
}

/// The lifecycle relation: what one socket operation may do to the
/// transport state. Listen moves a fresh TCP socket to one of the server
/// variants; connect moves it to one of the data variants; a connect on a
/// non-TCP socket, and a re-listen, keep the variant. Nothing leaves a
/// data variant.
pub open spec fn spec_step(k1: SocketBufKind, k2: SocketBufKind) -> bool {
    ||| k1 == k2
    ||| (k1 == SocketBufKind::TCPInit && (is_server_kind(k2) || k2 == SocketBufKind::TCPNormalData
        || is_buffered_kind(k2)))
}

/// States a fresh TCP socket can ever be in.
pub open spec fn spec_reachable_from_init(k: SocketBufKind) -> bool {
    k == SocketBufKind::TCPInit || is_server_kind(k) || k == SocketBufKind::TCPNormalData
        || is_buffered_kind(k)
}

/// State reachability: starting from a fresh TCP socket, the lifecycle
/// relation stays inside the three server and three data variants.
pub proof fn lemma_step_closed(k1: SocketBufKind, k2: SocketBufKind)
    requires
        spec_reachable_from_init(k1),
        spec_step(k1, k2),
    ensures
        spec_reachable_from_init(k2),
{
}

/// Terminal variants: once a socket is a data socket (buffered or not),
/// no step changes its variant, so a lifetime never sees two buffered
/// variants.
pub proof fn lemma_data_terminal(k1: SocketBufKind, k2: SocketBufKind)
    requires
        is_buffered_kind(k1) || k1 == SocketBufKind::TCPNormalData,
        spec_step(k1, k2),
    ensures
        k2 == k1,
{
}

impl SocketBufType {
    pub open spec fn wf(&self) -> bool {
        match self {
            SocketBufType::TCPUringlServer(q) => q.wf(),
            SocketBufType::TCPRDMAServer(q) => q.wf(),
            SocketBufType::Uring(b) => b.wf(),
            SocketBufType::RDMA(b) => b.wf(),
            _ => true,
        }
    }

    /// The child transport state for a connection taken off this server
    /// socket: a plain server hands out plain data sockets, a uring or
    /// RDMA server hands out buffered ones over the accepted connection's
    /// buffer. Only server sockets accept.
    pub fn Accept(&self, socketBuf: SocketBuff) -> (r: Self)
        requires
            self.wf(),
            is_server_kind(kind_of(*self)),
            socketBuf.wf(),
        ensures
            r.wf(),
            *self matches SocketBufType::TCPNormalServer ==> r is TCPNormalData,
            *self matches SocketBufType::TCPUringlServer(_) ==> r matches SocketBufType::Uring(b)
                && b == socketBuf,
            *self matches SocketBufType::TCPRDMAServer(_) ==> r matches SocketBufType::RDMA(b)
                && b == socketBuf,
    {
        match self {
            SocketBufType::TCPNormalServer => SocketBufType::TCPNormalData,
            SocketBufType::TCPUringlServer(_) => SocketBufType::Uring(socketBuf),
            _ => SocketBufType::RDMA(socketBuf),
        }
    }

    /// The transport state after a successful connect: a fresh TCP socket
    /// picks its transport from the configuration; a non-TCP socket is
    /// unchanged (UDP connect carries no transport).
    pub fn Connect(&self, cfg: &Config) -> (r: Self)
        requires
            *self is TCPInit || *self is NoTCP,
        ensures
            r.wf(),
            *self is NoTCP ==> r is NoTCP,
            *self is TCPInit && cfg.EnableRDMA ==> (r matches SocketBufType::RDMA(b)
                && spec_fresh_buf(b)),
            *self is TCPInit && !cfg.EnableRDMA && cfg.UringIO ==> (r matches SocketBufType::Uring(
                b,
            ) && spec_fresh_buf(b)),
            *self is TCPInit && !cfg.EnableRDMA && !cfg.UringIO ==> r is TCPNormalData,
            spec_step(kind_of(*self), kind_of(r)),
    {
        match self {
            SocketBufType::TCPInit => self.ConnectType(cfg),
            _ => SocketBufType::NoTCP,
        }
    }

    fn ConnectType(&self, cfg: &Config) -> (r: Self)
        ensures
            r.wf(),
            cfg.EnableRDMA ==> (r matches SocketBufType::RDMA(b) && spec_fresh_buf(b)),
            !cfg.EnableRDMA && cfg.UringIO ==> (r matches SocketBufType::Uring(b)
                && spec_fresh_buf(b)),
            !cfg.EnableRDMA && !cfg.UringIO ==> r is TCPNormalData,
    {
        proof {
            assert(16u64 & ((16u64 - 1) as u64) == 0) by (bit_vector);
        }
        if cfg.EnableRDMA {
            SocketBufType::RDMA(SocketBuff::Init(DEFAULT_BUF_PAGE_COUNT))
        } else if cfg.UringIO {
            SocketBufType::Uring(SocketBuff::Init(DEFAULT_BUF_PAGE_COUNT))
        } else {
            SocketBufType::TCPNormalData
        }
    }
}

/// A receive timeout as the 16 little-endian bytes of a struct timeval:
/// seconds, then microseconds.
#[derive(Clone, Copy, PartialEq, Eq, Structural, Debug)]
pub struct Timeval {
    pub Sec: i64,
    pub Usec: i64,
}

/// The timeout in nanoseconds, before clamping.
pub open spec fn spec_timeval_ns(sec: int, usec: int) -> int {
    sec * 1_000_000_000 + usec * 1000
}

/// Clamp to the i64 range in which timeouts are stored.
pub open spec fn spec_clamp_i64(x: int) -> int {
    if x > i64::MAX {
        i64::MAX as int
    } else if x < i64::MIN {
        i64::MIN as int
    } else {
        x
    }
}

impl Timeval {
    pub fn FromBytes(bytes: &Vec<u8>) -> (r: Timeval)
        requires
            16 <= bytes@.len(),
        ensures
            r.Sec == crate::rdma::u64_of_le(bytes@.subrange(0, 8)) as i64,
            r.Usec == crate::rdma::u64_of_le(bytes@.subrange(8, 16)) as i64,
    {
        let sec = crate::rdma::read_u64_le(bytes, 0) as i64;
        let usec = crate::rdma::read_u64_le(bytes, 8) as i64;
        Timeval { Sec: sec, Usec: usec }
    }

    /// The timeout in nanoseconds, saturating at the i64 range.
    pub fn ToDuration(&self) -> (r: i64)
        ensures
            r == spec_clamp_i64(spec_timeval_ns(self.Sec as int, self.Usec as int)),
    {
        let ns: i128 = (self.Sec as i128) * 1_000_000_000 + (self.Usec as i128) * 1000;
        if ns > i64::MAX as i128 {
            i64::MAX
        } else if ns < i64::MIN as i128 {
            i64::MIN
        } else {
            ns as i64
        }
    }
}

/// Receive flags the host path accepts.
pub const RECV_ALLOWED_FLAGS: i32 = MsgType::MSG_DONTWAIT | MsgType::MSG_PEEK
    | MsgType::MSG_TRUNC | MsgType::MSG_CTRUNC | MsgType::MSG_WAITALL;

/// Send flags the host path accepts.
pub const SEND_ALLOWED_FLAGS: i32 = MsgType::MSG_DONTWAIT | MsgType::MSG_EOR
    | MsgType::MSG_FASTOPEN | MsgType::MSG_MORE | MsgType::MSG_NOSIGNAL;

/// A host-path receive rejects any flag outside {DONTWAIT, PEEK, TRUNC,
/// CTRUNC, WAITALL} with EINVAL.
pub fn RecvMsgFlagsInvalid(flags: i32) -> (r: bool)
    ensures
        r == (flags & !RECV_ALLOWED_FLAGS != 0),
{
    flags & !RECV_ALLOWED_FLAGS != 0
}

/// A host-path send rejects any flag outside {DONTWAIT, EOR, FASTOPEN,
/// MORE, NOSIGNAL} with EINVAL.
pub fn SendMsgFlagsInvalid(flags: i32) -> (r: bool)
    ensures
        r == (flags & !SEND_ALLOWED_FLAGS != 0),
{
    flags & !SEND_ALLOWED_FLAGS != 0
}

/// Blocking receive wait results at the syscall boundary: a deadline
/// expiry surfaces as EAGAIN, an interruption as ERESTARTSYS.
pub fn RecvBlockError(e: Error) -> (r: Error)
    ensures
        e == Error::SysError(SysErr::ETIMEDOUT) ==> r == Error::SysError(SysErr::EAGAIN),
        e == Error::ErrInterrupted ==> r == Error::SysError(SysErr::ERESTARTSYS),
        e != Error::SysError(SysErr::ETIMEDOUT) && e != Error::ErrInterrupted ==> r == e,
{
    match e {
        Error::SysError(n) => {
            if n == SysErr::ETIMEDOUT {
                Error::SysError(SysErr::EAGAIN)
            } else {
                Error::SysError(n)
            }
        },
        Error::ErrInterrupted => Error::SysError(SysErr::ERESTARTSYS),
    }
}

/// Blocking send wait results: a deadline expiry surfaces as EWOULDBLOCK.
pub fn SendBlockError(e: Error) -> (r: Error)
    ensures
        e == Error::SysError(SysErr::ETIMEDOUT) ==> r == Error::SysError(SysErr::EWOULDBLOCK),
        e != Error::SysError(SysErr::ETIMEDOUT) ==> r == e,
{
    match e {
        Error::SysError(n) => {
            if n == SysErr::ETIMEDOUT {
                Error::SysError(SysErr::EWOULDBLOCK)
            } else {
                Error::SysError(n)
            }
        },
        Error::ErrInterrupted => Error::ErrInterrupted,
    }
}

/// Blocking connect wait results: an interruption surfaces as ERESTARTSYS.
pub fn ConnectBlockError(e: Error) -> (r: Error)
    ensures
        e == Error::ErrInterrupted ==> r == Error::SysError(SysErr::ERESTARTSYS),
        e != Error::ErrInterrupted ==> r == e,
{
    match e {
        Error::ErrInterrupted => Error::SysError(SysErr::ERESTARTSYS),
        Error::SysError(n) => Error::SysError(n),
    }
}

/// What the runtime must do after `PostConnect` picked the transport: run
/// the RDMA handshake, arm the io_uring ring, or nothing.
#[derive(Clone, Copy, PartialEq, Eq, Structural, Debug)]
pub enum PostConnectAction {
    RdmaConnect,
    UringInit,
    NoAction,
}

/// The buffered receive's result: data (byte count, message flags, the
/// sender if requested, control bytes), or the caller must block on
/// EVENT_READ and retry.
pub enum RecvMsgOutcome {
    Done(u64, i32, Option<Vec<u8>>, Vec<u8>),
    Block,
}

/// The buffered send's result: bytes queued, or block on EVENT_WRITE.
pub enum SendMsgOutcome {
    Done(u64),
    Block,
}

/// The accept's result: a connection (the child socket, the copied peer
/// address and its length, and the nonblocking/close-on-exec flags for
/// the new file), or the caller must block on EVENT_IN and retry.
pub enum AcceptOutcome {
    Child(SocketOperations, Vec<u8>, u32, bool, bool),
    Block,
}

/// The shutdown's next step: block until the write half drains, or issue
/// the host shutdown with this `how`.
#[derive(Clone, Copy, PartialEq, Eq, Structural, Debug)]
pub enum ShutdownStep {
    Block,
    Host(i32),
}

/// The mutable state of one socket.
pub struct SocketOperationsIntern {
    /// Send timeout in nanoseconds.
    pub send: i64,
    /// Receive timeout in nanoseconds.
    pub recv: i64,
    pub family: i32,
    pub stype: i32,
    pub fd: i32,
    /// The socket's waiter queue.
    pub queue: Queue,
    pub remoteAddr: Option<SockAddr>,
    pub socketBuf: SocketBufType,
    pub enableAsyncAccept: bool,
    pub passInq: bool,
}

/// A socket handle: the state machine plus the bookkeeping around it.
pub struct SocketOperations(pub SocketOperationsIntern);

impl SocketOperations {
    /// Transport variants that carry buffers or queues belong to TCP
    /// INET/INET6 stream sockets only.
    pub open spec fn wf(&self) -> bool {
        &&& self.0.socketBuf.wf()
        &&& self.0.queue.wf()
        &&& (kind_of(self.0.socketBuf) == SocketBufKind::TCPInit || is_buffered_kind(
            kind_of(self.0.socketBuf),
        ) || kind_of(self.0.socketBuf) == SocketBufKind::TCPUringlServer || kind_of(
            self.0.socketBuf,
        ) == SocketBufKind::TCPRDMAServer) ==> (self.0.family == AFType::AF_INET || self.0.family
            == AFType::AF_INET6) && self.0.stype == SockType::SOCK_STREAM
    }

    /// Build a socket over an already-open host fd. An address, when
    /// given and non-empty, must be a sockaddr its family accepts (the
    /// runtime hands in only addresses the host produced). For a uring
    /// transport the runtime arms the ring right after.
    pub fn New(
        family: i32,
        fd: i32,
        stype: i32,
        queue: Queue,
        socketBuf: SocketBufType,
        addr: Option<Vec<u8>>,
    ) -> (r: Result<SocketOperations, Error>)
        requires
            queue.wf(),
            socketBuf.wf(),
            (kind_of(socketBuf) == SocketBufKind::TCPInit || is_buffered_kind(kind_of(socketBuf))
                || kind_of(socketBuf) == SocketBufKind::TCPUringlServer || kind_of(socketBuf)
                == SocketBufKind::TCPRDMAServer) ==> (family == AFType::AF_INET || family
                == AFType::AF_INET6) && stype == SockType::SOCK_STREAM,
            match addr {
                Option::Some(v) => v@.len() > 0 ==> spec_get_addr(v@) is Some,
                Option::None => true,
            },
        ensures
            r matches Ok(s) && {
                &&& s.wf()
                &&& s.0.family == family
                &&& s.0.fd == fd
                &&& s.0.stype == stype
                &&& s.0.socketBuf == socketBuf
                &&& s.0.send == 0
                &&& s.0.recv == 0
                &&& !s.0.enableAsyncAccept
                &&& !s.0.passInq
                &&& s.0.queue == queue
                &&& match addr {
                    Some(v) => (if v@.len() == 0 {
                        s.0.remoteAddr is None
                    } else {
                        s.0.remoteAddr matches Some(a) && Option::Some(a.data@) == spec_get_addr(
                            v@,
                        )
                    }),
                    None => s.0.remoteAddr is None,
                }
            },
    {
        let remoteAddr: Option<SockAddr> = match addr {
            Option::None => Option::None,
            Option::Some(v) => {
                if v.len() == 0 {
                    Option::None
                } else {
                    let family0 = v[0] as i16;
                    match GetAddr(family0, &v) {
                        Ok(a) => Option::Some(a),
                        Err(_) => vstd::pervasive::unreached(),
                    }
                }
            },
        };
        Ok(
            SocketOperations(
                SocketOperationsIntern {
                    send: 0,
                    recv: 0,
                    family,
                    stype,
                    fd,
                    queue,
                    remoteAddr,
                    socketBuf,
                    enableAsyncAccept: false,
                    passInq: false,
                },
            ),
        )
    }

    pub fn AsyncAcceptEnabled(&self) -> (r: bool)
        ensures
            r == self.0.enableAsyncAccept,
    {
        self.0.enableAsyncAccept
    }

    /// The current transport state.
    pub fn SocketBufType(&self) -> (r: &SocketBufType)
        ensures
            r == &self.0.socketBuf,
    {
        &self.0.socketBuf
    }

    /// The socket buffer of a buffered socket; only buffered sockets
    /// carry one.
    pub fn SocketBuf(&self) -> (r: &SocketBuff)
        requires
            is_buffered_kind(kind_of(self.0.socketBuf)),
        ensures
            self.0.socketBuf matches SocketBufType::Uring(b) ==> r == &b,
            self.0.socketBuf matches SocketBufType::RDMA(b) ==> r == &b,
    {
        match &self.0.socketBuf {
            SocketBufType::Uring(b) => b,
            SocketBufType::RDMA(b) => b,
            _ => vstd::pervasive::unreached(),
        }
    }

    pub fn SocketBufEnabled(&self) -> (r: bool)
        ensures
            r == is_buffered_kind(kind_of(self.0.socketBuf)),
    {
        match &self.0.socketBuf {
            SocketBufType::Uring(_) => true,
            SocketBufType::RDMA(_) => true,
            _ => false,
        }
    }

    /// The accept queue of a listening uring or RDMA socket.
    pub fn AcceptQueue(&self) -> (r: Option<&AcceptQueue>)
        ensures
            self.0.socketBuf matches SocketBufType::TCPUringlServer(q) ==> r matches Some(rq)
                && rq == &q,
            self.0.socketBuf matches SocketBufType::TCPRDMAServer(q) ==> r matches Some(rq) && rq
                == &q,
            !(self.0.socketBuf is TCPUringlServer) && !(self.0.socketBuf is TCPRDMAServer) ==> r
                is None,
    {
        match &self.0.socketBuf {
            SocketBufType::TCPUringlServer(q) => Option::Some(q),
            SocketBufType::TCPRDMAServer(q) => Option::Some(q),
            _ => Option::None,
        }
    }

    /// After the host connect succeeded: pick the transport for this
    /// socket and say what the runtime must arm.
    pub fn PostConnect(&mut self, cfg: &Config) -> (r: PostConnectAction)
        requires
            old(self).wf(),
            old(self).0.socketBuf is TCPInit || old(self).0.socketBuf is NoTCP,
        ensures
            final(self).wf(),
            spec_step(kind_of(old(self).0.socketBuf), kind_of(final(self).0.socketBuf)),
            final(self).0.family == old(self).0.family,
            final(self).0.stype == old(self).0.stype,
            final(self).0.remoteAddr == old(self).0.remoteAddr,
            old(self).0.socketBuf is NoTCP ==> final(self).0.socketBuf is NoTCP && r
                == PostConnectAction::NoAction,
            old(self).0.socketBuf is TCPInit && cfg.EnableRDMA ==> (final(self).0.socketBuf
                matches SocketBufType::RDMA(b) && spec_fresh_buf(b)) && r
                == PostConnectAction::RdmaConnect,
            old(self).0.socketBuf is TCPInit && !cfg.EnableRDMA && cfg.UringIO ==> (final(self).0.socketBuf matches SocketBufType::Uring(b) && spec_fresh_buf(b)) && r
                == PostConnectAction::UringInit,
            old(self).0.socketBuf is TCPInit && !cfg.EnableRDMA && !cfg.UringIO ==> final(self).0.socketBuf is TCPNormalData && r == PostConnectAction::NoAction,
    {
        let newBuf = self.0.socketBuf.Connect(cfg);
        let action = match &newBuf {
            SocketBufType::RDMA(_) => PostConnectAction::RdmaConnect,
            SocketBufType::Uring(_) => PostConnectAction::UringInit,
            _ => PostConnectAction::NoAction,
        };
        self.0.socketBuf = newBuf;
        action
    }

    /// Wake every waiter interested in `mask`; the returned handles are
    /// the tasks the runtime readies.
    pub fn Notify(&self, mask: EventMask) -> (r: Vec<u64>)
        ensures
            r@ == crate::waiter::spec_notify_ids(self.0.queue.entries@, mask),
    {
        self.0.queue.Notify(mask)
    }

    /// A non-blocking connect is forced to block internally when the
    /// uring transport is on for this TCP socket: the ring must be armed
    /// before success is returned.
    pub fn ConnectShouldBlock(&self, blocking: bool, cfg: &Config) -> (r: bool)
        ensures
            r == (blocking || (cfg.UringIO && (self.0.family == AFType::AF_INET || self.0.family
                == AFType::AF_INET6) && self.0.stype == SockType::SOCK_STREAM)),
    {
        blocking || (cfg.UringIO && (self.0.family == AFType::AF_INET || self.0.family
            == AFType::AF_INET6) && self.0.stype == SockType::SOCK_STREAM)
    }

    /// The tail of a successful connect: record the peer address (already
    /// truncated for the host) and pick the transport.
    pub fn ConnectDone(&mut self, sockaddr: Vec<u8>, cfg: &Config) -> (r: Result<
        PostConnectAction,
        Error,
    >)
        requires
            old(self).wf(),
            old(self).0.socketBuf is TCPInit || old(self).0.socketBuf is NoTCP,
            sockaddr@.len() > 0,
        ensures
            final(self).wf(),
            spec_get_addr(sockaddr@) is None ==> r is Err && *final(self) == *old(self),
            spec_get_addr(sockaddr@) matches Option::Some(kept) ==> {
                &&& (final(self).0.remoteAddr matches Some(a) && a.data@ == kept)
                &&& spec_step(kind_of(old(self).0.socketBuf), kind_of(final(self).0.socketBuf))
                &&& (old(self).0.socketBuf is TCPInit && cfg.EnableRDMA ==> (r matches Ok(a)
                    && a == PostConnectAction::RdmaConnect) && final(self).0.socketBuf is RDMA)
                &&& (old(self).0.socketBuf is TCPInit && !cfg.EnableRDMA && cfg.UringIO ==> (r
                    matches Ok(a) && a == PostConnectAction::UringInit) && final(self).0.socketBuf is Uring)
                &&& (old(self).0.socketBuf is TCPInit && !cfg.EnableRDMA && !cfg.UringIO ==> (r
                    matches Ok(a) && a == PostConnectAction::NoAction) && final(self).0.socketBuf
                    is TCPNormalData)
                &&& (old(self).0.socketBuf is NoTCP ==> (r matches Ok(a) && a
                    == PostConnectAction::NoAction) && final(self).0.socketBuf is NoTCP)
            },
    {
        match self.SetRemoteAddr(sockaddr) {
            Ok(()) => (),
            Err(e) => {
                return Err(e);
            },
        }
        Ok(self.PostConnect(cfg))
    }

    /// Record the peer's address from raw sockaddr bytes.
    pub fn SetRemoteAddr(&mut self, addr: Vec<u8>) -> (r: Result<(), Error>)
        requires
            old(self).wf(),
            addr@.len() > 0,
        ensures
            final(self).wf(),
            *final(self) == (SocketOperations(
                SocketOperationsIntern { remoteAddr: final(self).0.remoteAddr, ..old(self).0 },
            )),
            match spec_get_addr(addr@) {
                Option::Some(kept) => r is Ok && (final(self).0.remoteAddr matches Some(a)
                    && a.data@ == kept),
                Option::None => r is Err && *final(self) == *old(self),
            },
    {
        let family0 = addr[0] as i16;
        match GetAddr(family0, &addr) {
            Ok(a) => {
                self.0.remoteAddr = Option::Some(a);
                Ok(())
            },
            Err(e) => Err(e),
        }
    }

    /// The peer's address, serialized; None before any connect or accept.
    pub fn GetRemoteAddr(&self) -> (r: Option<Vec<u8>>)
        ensures
            match self.0.remoteAddr {
                Option::Some(a) => r matches Some(v) && v@ == a.data@,
                Option::None => r is None,
            },
    {
        match &self.0.remoteAddr {
            Option::Some(a) => Option::Some(a.ToVec()),
            Option::None => Option::None,
        }
    }

    pub fn SetRecvTimeout(&mut self, ns: i64)
        ensures
            *final(self) == (SocketOperations(
                SocketOperationsIntern { recv: ns, ..old(self).0 },
            )),
    {
        self.0.recv = ns;
    }

    pub fn SetSendTimeout(&mut self, ns: i64)
        ensures
            *final(self) == (SocketOperations(
                SocketOperationsIntern { send: ns, ..old(self).0 },
            )),
    {
        self.0.send = ns;
    }

    pub fn RecvTimeout(&self) -> (r: i64)
        ensures
            r == self.0.recv,
    {
        self.0.recv
    }

    pub fn SendTimeout(&self) -> (r: i64)
        ensures
            r == self.0.send,
    {
        self.0.send
    }
}

/// The peer-address bytes a child socket records: the family-sized
/// prefix its first byte names, or the raw bytes when no family fits.
pub open spec fn spec_child_remote(prefix: Seq<u8>) -> Seq<u8> {
    match spec_get_addr(prefix) {
        Option::Some(kept) => kept,
        Option::None => prefix,
    }
}

/// The socket buffer inside a buffered transport variant.
pub open spec fn the_buf(s: SocketBufType) -> SocketBuff {
    match s {
        SocketBufType::Uring(b) => b,
        SocketBufType::RDMA(b) => b,
        _ => vstd::pervasive::arbitrary(),
    }
}

/// The accept queue inside a listening uring or RDMA variant.
pub open spec fn the_queue(s: SocketBufType) -> AcceptQueue {
    match s {
        SocketBufType::TCPUringlServer(q) => q,
        SocketBufType::TCPRDMAServer(q) => q,
        _ => vstd::pervasive::arbitrary(),
    }
}

pub open spec fn is_queue_kind(k: SocketBufKind) -> bool {
    k == SocketBufKind::TCPUringlServer || k == SocketBufKind::TCPRDMAServer
}

/// Read up to `want` bytes' worth out of a buffered socket's read half.
/// A latched error surfaces first; an open, empty half would block; a
/// closed, drained half reads as end of stream.
fn BufRead(b: &mut SocketBuff, want: u64) -> (r: Result<u64, Error>)
    requires
        old(b).wf(),
        old(b).consumeReadData + want <= u64::MAX,
    ensures
        final(b).wf(),
        old(b).err != 0 ==> r == Result::<u64, Error>::Err(Error::SysError(old(b).err)) && *final(b) == *old(b),
        old(b).err == 0 && old(b).readBuf.len == 0 && !old(b).rClosed ==> r == Result::<
            u64,
            Error,
        >::Err(Error::SysError(SysErr::EWOULDBLOCK)) && *final(b) == *old(b),
        old(b).err == 0 && (old(b).readBuf.len > 0 || old(b).rClosed) ==> {
            &&& (r matches Ok(n) && n == min64(want, old(b).readBuf.len))
            &&& final(b).readBuf.len == old(b).readBuf.len - min64(want, old(b).readBuf.len)
            &&& final(b).consumeReadData == old(b).consumeReadData + min64(
                want,
                old(b).readBuf.len,
            )
            &&& final(b).writeBuf == old(b).writeBuf
            &&& final(b).err == old(b).err
            &&& final(b).rClosed == old(b).rClosed
            &&& final(b).wClosed == old(b).wClosed
            &&& final(b).pendingWShutdown == old(b).pendingWShutdown
            &&& final(b).readBuf.capacity == old(b).readBuf.capacity
        },
{
    if b.Error() != 0 {
        return Err(Error::SysError(b.Error()));
    }
    if b.AvailableReadDataSize() == 0 && !b.RClosed() {
        return Err(Error::SysError(SysErr::EWOULDBLOCK));
    }
    let n = b.ReadData(want);
    Ok(n)
}

/// Queue up to `want` bytes into a buffered socket's write half. A
/// latched error surfaces first; a closed write half is a broken pipe; a
/// full half would block.
fn BufWrite(b: &mut SocketBuff, want: u64) -> (r: Result<u64, Error>)
    requires
        old(b).wf(),
    ensures
        final(b).wf(),
        old(b).err != 0 ==> r == Result::<u64, Error>::Err(Error::SysError(old(b).err)) && *final(b) == *old(b),
        old(b).err == 0 && old(b).wClosed ==> r == Result::<u64, Error>::Err(
            Error::SysError(SysErr::EPIPE),
        ) && *final(b) == *old(b),
        old(b).err == 0 && !old(b).wClosed && old(b).writeBuf.spec_free() == 0 ==> r == Result::<
            u64,
            Error,
        >::Err(Error::SysError(SysErr::EWOULDBLOCK)) && *final(b) == *old(b),
        old(b).err == 0 && !old(b).wClosed && old(b).writeBuf.spec_free() > 0 ==> {
            &&& (r matches Ok(n) && n == min64(want, old(b).writeBuf.spec_free()))
            &&& final(b).writeBuf.len == old(b).writeBuf.len + min64(
                want,
                old(b).writeBuf.spec_free(),
            )
            &&& final(b).readBuf == old(b).readBuf
            &&& final(b).consumeReadData == old(b).consumeReadData
            &&& final(b).err == old(b).err
            &&& final(b).wClosed == old(b).wClosed
            &&& final(b).writeBuf.capacity == old(b).writeBuf.capacity
            &&& final(b).pendingWShutdown == old(b).pendingWShutdown
        },
{
    if b.Error() != 0 {
        return Err(Error::SysError(b.Error()));
    }
    if b.WClosed() {
        return Err(Error::SysError(SysErr::EPIPE));
    }
    if b.writeBuf.AvailableSpace() == 0 {
        return Err(Error::SysError(SysErr::EWOULDBLOCK));
    }
    let n = b.WriteData(want);
    Ok(n)
}

/// Pop an accepted connection off a listener's queue: a latched error
/// first, then EAGAIN on empty.
fn QueueAccept(q: &mut AcceptQueue) -> (r: Result<AcceptItem, Error>)
    requires
        old(q).wf(),
    ensures
        final(q).wf(),
        final(q).queueLen == old(q).queueLen,
        final(q).err == old(q).err,
        old(q).err != 0 ==> r == Result::<AcceptItem, Error>::Err(
            Error::SysError(old(q).err),
        ) && *final(q) == *old(q),
        old(q).err == 0 && old(q).queue@.len() == 0 ==> r == Result::<AcceptItem, Error>::Err(
            Error::SysError(SysErr::EAGAIN),
        ) && *final(q) == *old(q),
        old(q).err == 0 && old(q).queue@.len() > 0 ==> {
            &&& (r matches Ok(it) && it == old(q).queue@[0] && it.wf())
            &&& final(q).queue@ == old(q).queue@.subrange(1, old(q).queue@.len() as int)
        },
{
    if q.Error() != 0 {
        return Err(Error::SysError(q.Error()));
    }
    match q.DeqSocket() {
        Option::Some(item) => Ok(item),
        Option::None => Err(Error::SysError(SysErr::EAGAIN)),
    }
}

/// The first `len` bytes of a stored peer address.
fn CopyPrefix(data: &[u8; 128], len: usize) -> (r: Vec<u8>)
    requires
        len <= 128,
    ensures
        r@ == data@.take(len as int),
{
    let mut r: Vec<u8> = Vec::new();
    let mut i: usize = 0;
    while i < len
        invariant
            len <= 128,
            0 <= i <= len,
            r@ == data@.take(i as int),
        decreases len - i,
    {
        r.push(data[i]);
        proof {
            assert(r@ =~= data@.take(i + 1));
        }
        i = i + 1;
    }
    r
}

impl SocketOperations {
    /// Read from the transport buffer of a buffered socket.
    pub fn ReadFromBuf(&mut self, want: u64) -> (r: Result<u64, Error>)
        requires
            old(self).wf(),
            is_buffered_kind(kind_of(old(self).0.socketBuf)),
            the_buf(old(self).0.socketBuf).consumeReadData + want <= u64::MAX,
        ensures
            final(self).wf(),
            kind_of(final(self).0.socketBuf) == kind_of(old(self).0.socketBuf),
            *final(self) == (SocketOperations(
                SocketOperationsIntern { socketBuf: final(self).0.socketBuf, ..old(self).0 },
            )),
            ({
                let b = the_buf(old(self).0.socketBuf);
                let b2 = the_buf(final(self).0.socketBuf);
                &&& (b.err != 0 ==> r == Result::<u64, Error>::Err(Error::SysError(b.err)) && b2
                    == b)
                &&& (b.err == 0 && b.readBuf.len == 0 && !b.rClosed ==> r == Result::<
                    u64,
                    Error,
                >::Err(Error::SysError(SysErr::EWOULDBLOCK)) && b2 == b)
                &&& (b.err == 0 && (b.readBuf.len > 0 || b.rClosed) ==> (r matches Ok(n) && n
                    == min64(want, b.readBuf.len)) && b2.readBuf.len == b.readBuf.len - min64(
                    want,
                    b.readBuf.len,
                ) && b2.consumeReadData == b.consumeReadData + min64(want, b.readBuf.len)
                    && b2.rClosed == b.rClosed && b2.err == b.err)
            }),
    {
        match &mut self.0.socketBuf {
            SocketBufType::Uring(b) => BufRead(b, want),
            SocketBufType::RDMA(b) => BufRead(b, want),
            _ => vstd::pervasive::unreached(),
        }
    }

    /// Write into the transport buffer of a buffered socket.
    pub fn WriteToBuf(&mut self, want: u64) -> (r: Result<u64, Error>)
        requires
            old(self).wf(),
            is_buffered_kind(kind_of(old(self).0.socketBuf)),
        ensures
            final(self).wf(),
            kind_of(final(self).0.socketBuf) == kind_of(old(self).0.socketBuf),
            *final(self) == (SocketOperations(
                SocketOperationsIntern { socketBuf: final(self).0.socketBuf, ..old(self).0 },
            )),
            ({
                let b = the_buf(old(self).0.socketBuf);
                let b2 = the_buf(final(self).0.socketBuf);
                &&& (b.err != 0 ==> r == Result::<u64, Error>::Err(Error::SysError(b.err)) && b2
                    == b)
                &&& (b.err == 0 && b.wClosed ==> r == Result::<u64, Error>::Err(
                    Error::SysError(SysErr::EPIPE),
                ) && b2 == b)
                &&& (b.err == 0 && !b.wClosed && b.writeBuf.spec_free() == 0 ==> r == Result::<
                    u64,
                    Error,
                >::Err(Error::SysError(SysErr::EWOULDBLOCK)) && b2 == b)
                &&& (b.err == 0 && !b.wClosed && b.writeBuf.spec_free() > 0 ==> (r matches Ok(n)
                    && n == min64(want, b.writeBuf.spec_free())) && b2.writeBuf.len
                    == b.writeBuf.len + min64(want, b.writeBuf.spec_free()))
            }),
    {
        match &mut self.0.socketBuf {
            SocketBufType::Uring(b) => BufWrite(b, want),
            SocketBufType::RDMA(b) => BufWrite(b, want),
            _ => vstd::pervasive::unreached(),
        }
    }

    /// The buffered receive path for up to `want` bytes. A receive for
    /// zero bytes returns immediately with nothing; otherwise data is
    /// returned as soon as any is available, end of stream reads as zero
    /// bytes, and an empty open buffer either fails with EWOULDBLOCK
    /// (MSG_DONTWAIT) or asks the caller to block on EVENT_READ and
    /// retry. Control data is never produced here: the buffered path
    /// forces the control length to zero.
    pub fn RecvMsg(
        &mut self,
        want: u64,
        flags: i32,
        senderRequested: bool,
        controlDataLen: usize,
    ) -> (r: Result<RecvMsgOutcome, Error>)
        requires
            old(self).wf(),
            is_buffered_kind(kind_of(old(self).0.socketBuf)),
            the_buf(old(self).0.socketBuf).consumeReadData + want <= u64::MAX,
            want > 0 && senderRequested ==> old(self).0.remoteAddr is Some,
        ensures
            final(self).wf(),
            kind_of(final(self).0.socketBuf) == kind_of(old(self).0.socketBuf),
            ({
                let b = the_buf(old(self).0.socketBuf);
                let n = min64(want, b.readBuf.len);
                &&& (want == 0 ==> (r matches Ok(o) && o matches RecvMsgOutcome::Done(
                    cnt,
                    fl,
                    sender,
                    ctrl,
                ) && cnt == 0 && fl == 0 && sender is None && ctrl@.len() == 0))
                &&& (want > 0 && b.err != 0 ==> r == Result::<RecvMsgOutcome, Error>::Err(
                    Error::SysError(b.err),
                ))
                &&& (want > 0 && b.err == 0 && b.readBuf.len == 0 && !b.rClosed ==> (if flags
                    & MsgType::MSG_DONTWAIT != 0 {
                    r == Result::<RecvMsgOutcome, Error>::Err(
                        Error::SysError(SysErr::EWOULDBLOCK),
                    )
                } else {
                    r matches Ok(o) && o is Block
                }))
                &&& (want > 0 && b.err == 0 && (b.readBuf.len > 0 || b.rClosed) ==> (r matches Ok(
                    o,
                ) && o matches RecvMsgOutcome::Done(cnt, fl, sender, ctrl) && cnt == n && fl == 0
                    && ctrl@.len() == 0 && (if senderRequested {
                    sender matches Some(sa) && sa@ == old(self).0.remoteAddr->Some_0.data@
                } else {
                    sender is None
                }) && the_buf(final(self).0.socketBuf).readBuf.len == b.readBuf.len - n))
            }),
    {
        if want == 0 {
            return Ok(RecvMsgOutcome::Done(0, 0, Option::None, Vec::new()));
        }
        let latched = match &self.0.socketBuf {
            SocketBufType::Uring(b) => b.Error(),
            SocketBufType::RDMA(b) => b.Error(),
            _ => vstd::pervasive::unreached(),
        };
        if latched != 0 {
            return Err(Error::SysError(latched));
        }
        match self.ReadFromBuf(want) {
            Err(_) => {
                // with no latched error, the only failure is an open,
                // empty buffer
                if flags & MsgType::MSG_DONTWAIT != 0 {
                    return Err(Error::SysError(SysErr::EWOULDBLOCK));
                }
                Ok(RecvMsgOutcome::Block)
            },
            Ok(n) => {
                let sender: Option<Vec<u8>> = if senderRequested {
                    match &self.0.remoteAddr {
                        Option::Some(a) => Option::Some(a.ToVec()),
                        Option::None => vstd::pervasive::unreached(),
                    }
                } else {
                    Option::None
                };
                let (retFlags, control) = self.prepareControlMessage(0);
                Ok(RecvMsgOutcome::Done(n, retFlags, sender, control))
            },
        }
    }

    /// The buffered send path for up to `want` bytes. The buffered path
    /// carries no message name and no control data; as much as fits is
    /// queued at once, and a full buffer either fails with EWOULDBLOCK
    /// (MSG_DONTWAIT) or asks the caller to block on EVENT_WRITE.
    pub fn SendMsg(&mut self, want: u64, flags: i32, hasName: bool, hasControl: bool) -> (r:
        Result<SendMsgOutcome, Error>)
        requires
            old(self).wf(),
            is_buffered_kind(kind_of(old(self).0.socketBuf)),
            !hasName,
            !hasControl,
        ensures
            final(self).wf(),
            kind_of(final(self).0.socketBuf) == kind_of(old(self).0.socketBuf),
            ({
                let b = the_buf(old(self).0.socketBuf);
                let n = min64(want, b.writeBuf.spec_free());
                &&& (b.err != 0 ==> r == Result::<SendMsgOutcome, Error>::Err(
                    Error::SysError(b.err),
                ))
                &&& (b.err == 0 && b.wClosed ==> r == Result::<SendMsgOutcome, Error>::Err(
                    Error::SysError(SysErr::EPIPE),
                ))
                &&& (b.err == 0 && !b.wClosed && b.writeBuf.spec_free() == 0 ==> (if flags
                    & MsgType::MSG_DONTWAIT != 0 {
                    r == Result::<SendMsgOutcome, Error>::Err(
                        Error::SysError(SysErr::EWOULDBLOCK),
                    )
                } else {
                    r matches Ok(o) && o is Block
                }))
                &&& (b.err == 0 && !b.wClosed && b.writeBuf.spec_free() > 0 ==> (r matches Ok(o)
                    && o == SendMsgOutcome::Done(n)) && the_buf(
                    final(self).0.socketBuf,
                ).writeBuf.len == b.writeBuf.len + n)
            }),
    {
        let latched = match &self.0.socketBuf {
            SocketBufType::Uring(b) => b.Error(),
            SocketBufType::RDMA(b) => b.Error(),
            _ => vstd::pervasive::unreached(),
        };
        if latched != 0 {
            return Err(Error::SysError(latched));
        }
        let closed = match &self.0.socketBuf {
            SocketBufType::Uring(b) => b.WClosed(),
            SocketBufType::RDMA(b) => b.WClosed(),
            _ => vstd::pervasive::unreached(),
        };
        if closed {
            return Err(Error::SysError(SysErr::EPIPE));
        }
        match self.WriteToBuf(want) {
            Err(_) => {
                // with no latched error and an open half, the only
                // failure is a full buffer
                if flags & MsgType::MSG_DONTWAIT != 0 {
                    return Err(Error::SysError(SysErr::EWOULDBLOCK));
                }
                Ok(SendMsgOutcome::Block)
            },
            Ok(n) => Ok(SendMsgOutcome::Done(n)),
        }
    }

    /// Take one accepted connection from this listener's queue. The
    /// plain TCP server accepts through the host instead; a socket that
    /// is no server at all is an invalid accept.
    pub fn AcceptData(&mut self) -> (r: Result<AcceptItem, Error>)
        requires
            old(self).wf(),
            kind_of(old(self).0.socketBuf) != SocketBufKind::TCPNormalServer,
        ensures
            final(self).wf(),
            kind_of(final(self).0.socketBuf) == kind_of(old(self).0.socketBuf),
            final(self).0.family == old(self).0.family,
            final(self).0.stype == old(self).0.stype,
            r is Err ==> *final(self) == *old(self),
            !is_queue_kind(kind_of(old(self).0.socketBuf)) ==> r == Result::<
                AcceptItem,
                Error,
            >::Err(Error::SysError(SysErr::EINVAL)),
            is_queue_kind(kind_of(old(self).0.socketBuf)) ==> ({
                let q = the_queue(old(self).0.socketBuf);
                let q2 = the_queue(final(self).0.socketBuf);
                &&& (q.err != 0 ==> r == Result::<AcceptItem, Error>::Err(
                    Error::SysError(q.err),
                ))
                &&& (q.err == 0 && q.queue@.len() == 0 ==> r == Result::<AcceptItem, Error>::Err(
                    Error::SysError(SysErr::EAGAIN),
                ))
                &&& (q.err == 0 && q.queue@.len() > 0 ==> (r matches Ok(it) && it
                    == q.queue@[0] && it.wf()) && q2.queue@ == q.queue@.subrange(
                    1,
                    q.queue@.len() as int,
                ))
            }),
    {
        match &mut self.0.socketBuf {
            SocketBufType::TCPUringlServer(q) => QueueAccept(q),
            SocketBufType::TCPRDMAServer(q) => QueueAccept(q),
            _ => Err(Error::SysError(SysErr::EINVAL)),
        }
    }

    /// Accept on a uring or RDMA listener. With nothing queued, a
    /// non-blocking accept fails with EAGAIN; a blocking one registers
    /// EVENT_IN and retries (the returned Block). A connection becomes a
    /// child socket over the queued buffer, with the peer address copied
    /// out up to the caller's buffer size, and the nonblocking and
    /// close-on-exec flags decoded for the new file.
    pub fn Accept(&mut self, addrLen: usize, flags: i32, blocking: bool) -> (r: Result<
        AcceptOutcome,
        Error,
    >)
        requires
            old(self).wf(),
            kind_of(old(self).0.socketBuf) != SocketBufKind::TCPNormalServer,
        ensures
            final(self).wf(),
            kind_of(final(self).0.socketBuf) == kind_of(old(self).0.socketBuf),
            r is Err ==> *final(self) == *old(self),
            !is_queue_kind(kind_of(old(self).0.socketBuf)) ==> r == Result::<
                AcceptOutcome,
                Error,
            >::Err(Error::SysError(SysErr::EINVAL)),
            is_queue_kind(kind_of(old(self).0.socketBuf)) ==> ({
                let q = the_queue(old(self).0.socketBuf);
                &&& (q.err != 0 ==> r == Result::<AcceptOutcome, Error>::Err(
                    Error::SysError(q.err),
                ))
                &&& (q.err == 0 && q.queue@.len() == 0 && !blocking ==> r == Result::<
                    AcceptOutcome,
                    Error,
                >::Err(Error::SysError(SysErr::EAGAIN)))
                &&& (q.err == 0 && q.queue@.len() == 0 && blocking ==> (r matches Ok(o) && o
                    is Block) && *final(self) == *old(self))
                &&& (q.err == 0 && q.queue@.len() > 0 ==> ({
                    let item = q.queue@[0];
                    let copyLen = (if addrLen > 0 {
                        min64(min64(item.len as u64, addrLen as u64), 128)
                    } else {
                        128
                    });
                    r matches Ok(o) && (o matches AcceptOutcome::Child(
                        child,
                        addrOut,
                        addrOutLen,
                        nonblock,
                        cloexec,
                    ) && {
                        &&& child.0.fd == item.fd
                        &&& child.0.family == old(self).0.family
                        &&& child.0.stype == old(self).0.stype
                        &&& (kind_of(old(self).0.socketBuf) == SocketBufKind::TCPUringlServer
                            ==> (child.0.socketBuf matches SocketBufType::Uring(b) && b
                            == item.sockBuf))
                        &&& (kind_of(old(self).0.socketBuf) == SocketBufKind::TCPRDMAServer
                            ==> (child.0.socketBuf matches SocketBufType::RDMA(b) && b
                            == item.sockBuf))
                        &&& (child.0.remoteAddr matches Some(ra) && ra.data@
                            == spec_child_remote(item.addr.data@.take(copyLen as int)))
                        &&& (addrLen > 0 ==> addrOut@ == item.addr.data@.take(copyLen as int)
                            && addrOutLen == copyLen)
                        &&& (addrLen == 0 ==> addrOut@.len() == 0 && addrOutLen == 0)
                        &&& nonblock == (flags & SocketFlags::SOCK_NONBLOCK != 0)
                        &&& cloexec == (flags & SocketFlags::SOCK_CLOEXEC != 0)
                    })
                }))
            }),
    {
        match &self.0.socketBuf {
            SocketBufType::TCPUringlServer(q) => {
                if q.Error() != 0 {
                    return Err(Error::SysError(q.Error()));
                }
            },
            SocketBufType::TCPRDMAServer(q) => {
                if q.Error() != 0 {
                    return Err(Error::SysError(q.Error()));
                }
            },
            _ => {
                return Err(Error::SysError(SysErr::EINVAL));
            },
        }
        let item = match self.AcceptData() {
            Err(_) => {
                // with no latched error, the only failure is an empty
                // queue
                if !blocking {
                    return Err(Error::SysError(SysErr::EAGAIN));
                }
                return Ok(AcceptOutcome::Block);
            },
            Ok(item) => item,
        };
        let copyLen: usize = if addrLen > 0 {
            let a = if (item.len as usize) <= addrLen {
                item.len as usize
            } else {
                addrLen
            };
            if a <= 128 {
                a
            } else {
                128
            }
        } else {
            128
        };
        let mut addrOut: Vec<u8> = Vec::new();
        let mut addrOutLen: u32 = 0;
        if addrLen > 0 {
            addrOut = CopyPrefix(&item.addr.data, copyLen);
            addrOutLen = copyLen as u32;
        }
        // the child records the family-sized prefix of the peer address
        let prefix = CopyPrefix(&item.addr.data, copyLen);
        let remote = if prefix.len() > 0 {
            let family0 = prefix[0] as i16;
            match GetAddr(family0, &prefix) {
                Ok(a) => a,
                Err(_) => SockAddr { data: prefix },
            }
        } else {
            SockAddr { data: prefix }
        };
        let childBuf = self.0.socketBuf.Accept(item.sockBuf);
        let child = SocketOperations(
            SocketOperationsIntern {
                send: 0,
                recv: 0,
                family: self.0.family,
                stype: self.0.stype,
                fd: item.fd,
                queue: Queue::New(),
                remoteAddr: Option::Some(remote),
                socketBuf: childBuf,
                enableAsyncAccept: false,
                passInq: false,
            },
        );
        let nonblock = flags & SocketFlags::SOCK_NONBLOCK != 0;
        let cloexec = flags & SocketFlags::SOCK_CLOEXEC != 0;
        Ok(AcceptOutcome::Child(child, addrOut, addrOutLen, nonblock, cloexec))
    }

    /// Configure this socket as a listener. A backlog of zero or less
    /// counts as 5. A listener that already has a queue only resizes it
    /// (no host call; `host_rc` is ignored). Otherwise `host_rc` is the
    /// host listen's result: an error passes through, and on success the
    /// socket becomes an RDMA server, a uring server (arming the async
    /// accept), or a plain server, per the configuration.
    pub fn Listen(&mut self, backlog: i32, cfg: &Config, host_rc: i64) -> (r: Result<i64, Error>)
        requires
            old(self).wf(),
            kind_of(old(self).0.socketBuf) == SocketBufKind::TCPInit || is_server_kind(
                kind_of(old(self).0.socketBuf),
            ),
            host_rc < 0 ==> -host_rc <= i32::MAX,
        ensures
            final(self).wf(),
            spec_step(kind_of(old(self).0.socketBuf), kind_of(final(self).0.socketBuf)),
            final(self).0.family == old(self).0.family,
            final(self).0.stype == old(self).0.stype,
            final(self).0.fd == old(self).0.fd,
            final(self).0.queue == old(self).0.queue,
            final(self).0.remoteAddr == old(self).0.remoteAddr,
            final(self).0.send == old(self).0.send,
            final(self).0.recv == old(self).0.recv,
            final(self).0.passInq == old(self).0.passInq,
            ({
                let clamped = (if backlog <= 0 {
                    5int
                } else {
                    backlog as int
                });
                &&& (is_queue_kind(kind_of(old(self).0.socketBuf)) ==> (r matches Ok(rc) && rc
                    == 0) && kind_of(final(self).0.socketBuf) == kind_of(old(self).0.socketBuf)
                    && final(self).0.enableAsyncAccept == old(self).0.enableAsyncAccept
                    && the_queue(final(self).0.socketBuf).queue == the_queue(
                    old(self).0.socketBuf,
                ).queue && the_queue(final(self).0.socketBuf).err == the_queue(
                    old(self).0.socketBuf,
                ).err && the_queue(final(self).0.socketBuf).queueLen == (if clamped >= the_queue(
                    old(self).0.socketBuf,
                ).queue@.len() {
                    clamped
                } else {
                    the_queue(old(self).0.socketBuf).queue@.len() as int
                }))
                &&& (kind_of(old(self).0.socketBuf) == SocketBufKind::TCPNormalServer ==> (
                r matches Ok(rc) && rc == 0) && *final(self) == *old(self))
                &&& (kind_of(old(self).0.socketBuf) == SocketBufKind::TCPInit && host_rc < 0
                    ==> r == Result::<i64, Error>::Err(Error::SysError((-host_rc) as i32))
                    && *final(self) == *old(self))
                &&& (kind_of(old(self).0.socketBuf) == SocketBufKind::TCPInit && host_rc >= 0
                    ==> (r matches Ok(rc) && rc == host_rc) && ({
                    let inetStream = (old(self).0.family == AFType::AF_INET || old(self).0.family
                        == AFType::AF_INET6) && old(self).0.stype == SockType::SOCK_STREAM;
                    let rdma = cfg.EnableRDMA && inetStream;
                    let asyncAccept = cfg.AsyncAccept && inetStream;
                    &&& (rdma ==> (final(self).0.socketBuf matches SocketBufType::TCPRDMAServer(
                        q,
                    ) && q.queueLen == clamped && q.queue@.len() == 0))
                    &&& (!rdma && asyncAccept ==> (final(self).0.socketBuf matches
                        SocketBufType::TCPUringlServer(q) && q.queueLen == clamped
                        && q.queue@.len() == 0) && final(self).0.enableAsyncAccept)
                    &&& (!rdma && !asyncAccept ==> final(self).0.socketBuf
                        is TCPNormalServer)
                }))
            }),
    {
        let len: usize = if backlog <= 0 {
            5
        } else {
            backlog as usize
        };
        match &mut self.0.socketBuf {
            SocketBufType::TCPUringlServer(q) => {
                q.SetQueueLen(len);
                return Ok(0);
            },
            SocketBufType::TCPRDMAServer(q) => {
                q.SetQueueLen(len);
                return Ok(0);
            },
            SocketBufType::TCPNormalServer => {
                // already listening; treat a re-listen as a no-op
                return Ok(0);
            },
            _ => (),
        }
        if host_rc < 0 {
            return Err(Error::SysError((-host_rc) as i32));
        }
        let inetStream = (self.0.family == AFType::AF_INET || self.0.family == AFType::AF_INET6)
            && self.0.stype == SockType::SOCK_STREAM;
        let rdma = cfg.EnableRDMA && inetStream;
        let asyncAccept = cfg.AsyncAccept && inetStream;
        let acceptQueue = AcceptQueue::New(len);
        if rdma {
            self.0.socketBuf = SocketBufType::TCPRDMAServer(acceptQueue);
        } else if asyncAccept {
            if !self.AsyncAcceptEnabled() {
                self.0.enableAsyncAccept = true;
            }
            self.0.socketBuf = SocketBufType::TCPUringlServer(acceptQueue);
        } else {
            self.0.socketBuf = SocketBufType::TCPNormalServer;
        }
        Ok(host_rc)
    }

    /// Decide a shutdown. Shutting down the write side of a buffered
    /// socket with data still queued parks a pending-shutdown request on
    /// the buffer and blocks until the write half drains; otherwise a
    /// valid `how` goes to the host, and anything else is EINVAL.
    pub fn Shutdown(&mut self, how: i32) -> (r: Result<ShutdownStep, Error>)
        requires
            old(self).wf(),
        ensures
            final(self).wf(),
            kind_of(final(self).0.socketBuf) == kind_of(old(self).0.socketBuf),
            ({
                let wr = how as u64 == LibcConst::SHUT_WR || how as u64 == LibcConst::SHUT_RDWR;
                let drain = wr && is_buffered_kind(kind_of(old(self).0.socketBuf)) && the_buf(
                    old(self).0.socketBuf,
                ).writeBuf.len > 0;
                &&& (drain ==> (r matches Ok(s) && s == ShutdownStep::Block) && the_buf(
                    final(self).0.socketBuf,
                ).pendingWShutdown)
                &&& (!drain && (how as u64 == LibcConst::SHUT_RD || how as u64
                    == LibcConst::SHUT_WR || how as u64 == LibcConst::SHUT_RDWR) ==> (r matches Ok(
                    s,
                ) && s == ShutdownStep::Host(how)) && *final(self) == *old(self))
                &&& (!drain && !(how as u64 == LibcConst::SHUT_RD || how as u64
                    == LibcConst::SHUT_WR || how as u64 == LibcConst::SHUT_RDWR) ==> r
                    == Result::<ShutdownStep, Error>::Err(Error::SysError(SysErr::EINVAL))
                    && *final(self) == *old(self))
            }),
    {
        let how64 = how as u64;
        if how64 == LibcConst::SHUT_WR || how64 == LibcConst::SHUT_RDWR {
            let needDrain = match &self.0.socketBuf {
                SocketBufType::Uring(b) => b.HasWriteData(),
                SocketBufType::RDMA(b) => b.HasWriteData(),
                _ => false,
            };
            if needDrain {
                match &mut self.0.socketBuf {
                    SocketBufType::Uring(b) => b.SetPendingWriteShutdown(),
                    SocketBufType::RDMA(b) => b.SetPendingWriteShutdown(),
                    _ => (),
                }
                return Ok(ShutdownStep::Block);
            }
        }
        if how64 == LibcConst::SHUT_RD || how64 == LibcConst::SHUT_WR || how64
            == LibcConst::SHUT_RDWR {
            return Ok(ShutdownStep::Host(how));
        }
        Err(Error::SysError(SysErr::EINVAL))
    }

    /// Readiness of a buffered socket or a queue-backed listener, masked
    /// by the caller's interest. Plain sockets poll the host fd instead.
    pub fn Readiness(&self, mask: EventMask) -> (r: EventMask)
        requires
            self.wf(),
            is_buffered_kind(kind_of(self.0.socketBuf)) || is_queue_kind(
                kind_of(self.0.socketBuf),
            ),
        ensures
            is_buffered_kind(kind_of(self.0.socketBuf)) ==> r == (the_buf(
                self.0.socketBuf,
            ).spec_events() & mask),
            is_queue_kind(kind_of(self.0.socketBuf)) ==> r == (the_queue(
                self.0.socketBuf,
            ).spec_events() & mask),
            r & mask == r,
    {
        let ev = match &self.0.socketBuf {
            SocketBufType::Uring(b) => b.Events(),
            SocketBufType::RDMA(b) => b.Events(),
            SocketBufType::TCPUringlServer(q) => q.Events(),
            SocketBufType::TCPRDMAServer(q) => q.Events(),
            _ => vstd::pervasive::unreached(),
        };
        let r = ev & mask;
        proof {
            assert(r & mask == r) by (bit_vector)
                requires
                    r == ev & mask,
            ;
        }
        r
    }

    /// Register a waiter on this socket's queue. Returns whether the
    /// runtime must also refresh the host fd watch: only sockets that are
    /// neither buffered nor queue-backed listeners are watched on the
    /// host.
    pub fn EventRegister(&mut self, id: u64, mask: EventMask) -> (r: bool)
        requires
            old(self).wf(),
        ensures
            final(self).wf(),
            *final(self) == (SocketOperations(
                SocketOperationsIntern { queue: final(self).0.queue, ..old(self).0 },
            )),
            !old(self).0.queue.spec_contains(id) ==> final(self).0.queue.entries@ == old(
                self,
            ).0.queue.entries@.push(crate::waiter::WaitEntry { id, mask }),
            old(self).0.queue.spec_contains(id) ==> exists|i: int|
                {
                    &&& 0 <= i < old(self).0.queue.entries@.len()
                    &&& old(self).0.queue.entries@[i].id == id
                    &&& final(self).0.queue.entries@ == old(self).0.queue.entries@.update(
                        i,
                        crate::waiter::WaitEntry { id, mask },
                    )
                },
            r == !(is_buffered_kind(kind_of(old(self).0.socketBuf)) || is_queue_kind(
                kind_of(old(self).0.socketBuf),
            )),
    {
        self.0.queue.EventRegister(id, mask);
        let buffered = self.SocketBufEnabled();
        let listener = match &self.0.socketBuf {
            SocketBufType::TCPUringlServer(_) => true,
            SocketBufType::TCPRDMAServer(_) => true,
            _ => false,
        };
        !(buffered || listener)
    }

    /// Unregister a waiter; same host-watch rule as registration.
    pub fn EventUnregister(&mut self, id: u64) -> (r: bool)
        requires
            old(self).wf(),
        ensures
            final(self).wf(),
            *final(self) == (SocketOperations(
                SocketOperationsIntern { queue: final(self).0.queue, ..old(self).0 },
            )),
            !old(self).0.queue.spec_contains(id) ==> final(self).0.queue.entries@ == old(
                self,
            ).0.queue.entries@,
            old(self).0.queue.spec_contains(id) ==> exists|i: int|
                {
                    &&& 0 <= i < old(self).0.queue.entries@.len()
                    &&& old(self).0.queue.entries@[i].id == id
                    &&& final(self).0.queue.entries@ == old(self).0.queue.entries@.remove(i)
                },
            r == !(is_buffered_kind(kind_of(old(self).0.socketBuf)) || is_queue_kind(
                kind_of(old(self).0.socketBuf),
            )),
    {
        self.0.queue.EventUnregister(id);
        let buffered = self.SocketBufEnabled();
        let listener = match &self.0.socketBuf {
            SocketBufType::TCPUringlServer(_) => true,
            SocketBufType::TCPRDMAServer(_) => true,
            _ => false,
        };
        !(buffered || listener)
    }

    /// Apply a socket option's local side effects before the host call:
    /// SO_RCVTIMEO sets the receive timeout from a struct timeval (a
    /// short buffer is EINVAL), and TCP_INQ toggles the inbound-queue
    /// control message when its 4-byte payload is present.
    pub fn SetSockOpt(&mut self, level: i32, name: i32, opt: &Vec<u8>) -> (r: Result<(), Error>)
        requires
            old(self).wf(),
        ensures
            final(self).wf(),
            final(self).0.socketBuf == old(self).0.socketBuf,
            final(self).0.queue == old(self).0.queue,
            final(self).0.remoteAddr == old(self).0.remoteAddr,
            final(self).0.send == old(self).0.send,
            ({
                let rcvtimeo = level as u64 == LibcConst::SOL_SOCKET && name as u64
                    == LibcConst::SO_RCVTIMEO;
                let inq = level as u64 == LibcConst::SOL_TCP && name as u64 == LibcConst::TCP_INQ;
                &&& (rcvtimeo && opt@.len() < SocketSize::SIZEOF_TIMEVAL ==> r == Result::<
                    (),
                    Error,
                >::Err(Error::SysError(SysErr::EINVAL)) && *final(self) == *old(self))
                &&& (rcvtimeo && opt@.len() >= SocketSize::SIZEOF_TIMEVAL ==> r is Ok && final(self).0.recv == spec_clamp_i64(
                    spec_timeval_ns(
                        crate::rdma::u64_of_le(opt@.subrange(0, 8)) as i64 as int,
                        crate::rdma::u64_of_le(opt@.subrange(8, 16)) as i64 as int,
                    ),
                ))
                &&& (inq && opt@.len() >= 4 ==> r is Ok && final(self).0.passInq == (
                crate::rdma::u32_of_le(opt@.subrange(0, 4)) as i32 == 1))
                &&& (inq && opt@.len() < 4 ==> r is Ok && *final(self) == *old(self))
                &&& (!rcvtimeo && !inq ==> r is Ok && *final(self) == *old(self))
            }),
    {
        if level as u64 == LibcConst::SOL_SOCKET && name as u64 == LibcConst::SO_RCVTIMEO {
            if opt.len() >= SocketSize::SIZEOF_TIMEVAL {
                let tv = Timeval::FromBytes(opt);
                let ns = tv.ToDuration();
                self.SetRecvTimeout(ns);
            } else {
                return Err(Error::SysError(SysErr::EINVAL));
            }
        }
        if level as u64 == LibcConst::SOL_TCP && name as u64 == LibcConst::TCP_INQ {
            if opt.len() >= 4 {
                let val = crate::rdma::read_u32_le(opt, 0) as i32;
                self.0.passInq = val == 1;
            }
        }
        Ok(())
    }

    /// The TCP_INQ control message, when the caller asked for control
    /// data and the socket passes the inbound queue size: a cmsg header
    /// (length 20, level SOL_TCP, type TCP_INQ) and the buffered byte
    /// count, padded to 24 bytes. With no room for it, MSG_CTRUNC is
    /// reported instead; the buffered receive path always passes a zero
    /// control length, so it never produces one.
    pub fn prepareControlMessage(&self, controlDataLen: usize) -> (r: (i32, Vec<u8>))
        requires
            self.wf(),
            self.0.passInq && controlDataLen > 0 ==> is_buffered_kind(kind_of(self.0.socketBuf)),
        ensures
            controlDataLen == 0 ==> r.0 == 0 && r.1@.len() == 0,
            controlDataLen > 0 && !self.0.passInq ==> r.0 == 0 && r.1@.len() == 0,
            controlDataLen >= 24 && self.0.passInq ==> r.0 == 0 && r.1@ == spec_inq_control(
                the_buf(self.0.socketBuf).readBuf.len as u32,
            ),
            0 < controlDataLen < 24 && self.0.passInq ==> r.0 == MsgType::MSG_CTRUNC && r.1@.len()
                == 0,
    {
        if controlDataLen == 0 {
            return (0, Vec::new());
        }
        if !self.0.passInq {
            return (0, Vec::new());
        }
        if controlDataLen < 24 {
            return (MsgType::MSG_CTRUNC, Vec::new());
        }
        let size = match &self.0.socketBuf {
            SocketBufType::Uring(b) => b.AvailableReadDataSize(),
            SocketBufType::RDMA(b) => b.AvailableReadDataSize(),
            _ => vstd::pervasive::unreached(),
        };
        let mut v: Vec<u8> = Vec::new();
        crate::rdma::push_u64_le(&mut v, 20);
        crate::rdma::push_u32_le(&mut v, 6);
        crate::rdma::push_u32_le(&mut v, 36);
        crate::rdma::push_u32_le(&mut v, size as u32);
        crate::rdma::push_u32_le(&mut v, 0);
        proof {
            assert(v@ =~= spec_inq_control(the_buf(self.0.socketBuf).readBuf.len as u32));
        }
        (0, v)
    }
}

/// The bytes of the TCP_INQ control message reporting `size` readable
/// bytes: cmsg_len 20, level SOL_TCP, type TCP_INQ, the count, 4 bytes of
/// padding.
pub open spec fn spec_inq_control(size: u32) -> Seq<u8> {
    crate::rdma::u64_le(20) + crate::rdma::u32_le(6) + crate::rdma::u32_le(36)
        + crate::rdma::u32_le(size) + crate::rdma::u32_le(0)
}

/// How the socket layer routes an ioctl request.
#[derive(Clone, Copy, PartialEq, Eq, Structural, Debug)]
pub enum IoctlCmd {
    /// Interface requests bounced through a kernel ifreq copy.
    IfReq,
    /// SIOCGIFCONF, bounced through a bounded buffer.
    IfConf,
    /// TIOCINQ: answered from the socket buffer when buffered.
    Inq,
    /// Anything else passes through to the host fd.
    PassThrough,
}

/// Classify an ioctl request the way the socket layer dispatches it.
pub fn IoctlClass(request: u64) -> (r: IoctlCmd)
    ensures
        request == LibcConst::SIOCGIFFLAGS || request == LibcConst::SIOCGIFBRDADDR || request
            == LibcConst::SIOCGIFDSTADDR || request == LibcConst::SIOCGIFHWADDR || request
            == LibcConst::SIOCGIFINDEX || request == LibcConst::SIOCGIFMAP || request
            == LibcConst::SIOCGIFMETRIC || request == LibcConst::SIOCGIFMTU || request
            == LibcConst::SIOCGIFNAME || request == LibcConst::SIOCGIFNETMASK || request
            == LibcConst::SIOCGIFTXQLEN ==> r == IoctlCmd::IfReq,
        request == LibcConst::SIOCGIFCONF ==> r == IoctlCmd::IfConf,
        request == LibcConst::TIOCINQ ==> r == IoctlCmd::Inq,
        !(request == LibcConst::SIOCGIFFLAGS || request == LibcConst::SIOCGIFBRDADDR || request
            == LibcConst::SIOCGIFDSTADDR || request == LibcConst::SIOCGIFHWADDR || request
            == LibcConst::SIOCGIFINDEX || request == LibcConst::SIOCGIFMAP || request
            == LibcConst::SIOCGIFMETRIC || request == LibcConst::SIOCGIFMTU || request
            == LibcConst::SIOCGIFNAME || request == LibcConst::SIOCGIFNETMASK || request
            == LibcConst::SIOCGIFTXQLEN || request == LibcConst::SIOCGIFCONF || request
            == LibcConst::TIOCINQ) ==> r == IoctlCmd::PassThrough,
{
    if request == LibcConst::SIOCGIFFLAGS || request == LibcConst::SIOCGIFBRDADDR || request
        == LibcConst::SIOCGIFDSTADDR || request == LibcConst::SIOCGIFHWADDR || request
        == LibcConst::SIOCGIFINDEX || request == LibcConst::SIOCGIFMAP || request
        == LibcConst::SIOCGIFMETRIC || request == LibcConst::SIOCGIFMTU || request
        == LibcConst::SIOCGIFNAME || request == LibcConst::SIOCGIFNETMASK || request
        == LibcConst::SIOCGIFTXQLEN {
        IoctlCmd::IfReq
    } else if request == LibcConst::SIOCGIFCONF {
        IoctlCmd::IfConf
    } else if request == LibcConst::TIOCINQ {
        IoctlCmd::Inq
    } else {
        IoctlCmd::PassThrough
    }
}

/// The SIOCGIFCONF bounce buffer is capped at 256 KiB; a negative
/// requested length counts as over the cap, as the unsigned cast the
/// host interface performs would make it.
pub fn IfconfLenClamp(len: i32) -> (r: i32)
    ensures
        0 <= len < 0x4_0000 ==> r == len,
        !(0 <= len < 0x4_0000) ==> r == 0x4_0000,
{
    if 0 <= len && len < 0x4_0000 {
        len
    } else {
        0x4_0000
    }
}

/// A socket provider for one address family.
pub struct SocketProvider {
    pub family: i32,
}

impl SocketProvider {
    /// Build the socket object over the fd the host returned for this
    /// family. TCP INET/INET6 stream sockets start on the accelerated
    /// lifecycle; everything else stays a plain pass-through socket.
    pub fn Socket(&self, stype: i32, hostFd: i32) -> (r: Result<(SocketOperations, bool), Error>)
        ensures
            r matches Ok(p) && {
                let masked = stype & SocketType::SOCK_TYPE_MASK;
                &&& p.0.wf()
                &&& p.0.0.family == self.family
                &&& p.0.0.fd == hostFd
                &&& p.0.0.stype == masked
                &&& ((self.family == AFType::AF_INET || self.family == AFType::AF_INET6)
                    && masked == SockType::SOCK_STREAM ==> p.0.0.socketBuf is TCPInit)
                &&& (!((self.family == AFType::AF_INET || self.family == AFType::AF_INET6)
                    && masked == SockType::SOCK_STREAM) ==> p.0.0.socketBuf is NoTCP)
                &&& p.1 == (stype & SocketFlags::SOCK_NONBLOCK != 0)
                &&& p.0.0.remoteAddr is None
            },
    {
        let masked = stype & SocketType::SOCK_TYPE_MASK;
        let socketType = if (self.family == AFType::AF_INET || self.family == AFType::AF_INET6)
            && masked == SockType::SOCK_STREAM {
            SocketBufType::TCPInit
        } else {
            SocketBufType::NoTCP
        };
        let sock = match SocketOperations::New(
            self.family,
            hostFd,
            masked,
            Queue::New(),
            socketType,
            Option::None,
        ) {
            Ok(s) => s,
            Err(_) => vstd::pervasive::unreached(),
        };
        Ok((sock, stype & SocketFlags::SOCK_NONBLOCK != 0))
    }

    /// Host-backed socket pairs are not provided.
    pub fn Pair(&self) -> (r: Result<i64, Error>)
        ensures
            r matches Err(e) && e == Error::SysError(SysErr::EOPNOTSUPP),
    {
        Err(Error::SysError(SysErr::EOPNOTSUPP))
    }
}

/// The providers registered at boot: one per family the host socket
/// layer serves.
pub fn Init() -> (r: Vec<SocketProvider>)
    ensures
        r@.len() == 3,
        r@[0].family == AFType::AF_INET,
        r@[1].family == AFType::AF_INET6,
        r@[2].family == AFType::AF_NETLINK,
{
    let mut r: Vec<SocketProvider> = Vec::new();
    r.push(SocketProvider { family: AFType::AF_INET });
    r.push(SocketProvider { family: AFType::AF_INET6 });
    r.push(SocketProvider { family: AFType::AF_NETLINK });
    r
}

/// Remote-address round trip: a sockaddr of exactly its family's size is
/// kept verbatim, so storing it and serializing it back returns the
/// original bytes.
pub proof fn lemma_remote_addr_roundtrip(bytes: Seq<u8>)
    requires
        (bytes.len() == 16 && bytes[0] == 2) || (bytes.len() == 28 && bytes[0] == 10),
    ensures
        spec_get_addr(bytes) == Option::Some(bytes),
{
    if bytes[0] == 2 {
        assert(bytes.subrange(0, 16) =~= bytes);
    } else {
        assert(bytes.subrange(0, 28) =~= bytes);
    }
}

} // verus!
