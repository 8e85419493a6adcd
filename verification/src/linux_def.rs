//! Linux-facing constants and the error type shared by the socket and
//! scheduler modules: poll event masks, address families, socket types,
//! message flags, and the errno values the contracts speak about.
use vstd::prelude::*;

verus! {

/// Poll-style readiness mask (EPOLL* bit layout).
pub type EventMask = u64;

pub const EVENT_IN: EventMask = 0x1;
pub const EVENT_OUT: EventMask = 0x4;
pub const EVENT_ERR: EventMask = 0x8;
pub const EVENT_HUP: EventMask = 0x10;
/// Internal readiness bit: the write half has drained after a shutdown
/// request was parked on the socket buffer.
pub const EVENT_PENDING_SHUTDOWN: EventMask = 0x10000;
/// Registration mask used by readers: data, hangup or error all wake them.
pub const EVENT_READ: EventMask = EVENT_IN | EVENT_ERR | EVENT_HUP;
/// Registration mask used by writers.
pub const EVENT_WRITE: EventMask = EVENT_OUT | EVENT_ERR | EVENT_HUP;

pub struct SysErr;

impl SysErr {
    pub const EAGAIN: i32 = 11;
    pub const EWOULDBLOCK: i32 = 11;
    pub const EINVAL: i32 = 22;
    pub const EPIPE: i32 = 32;
    pub const EMFILE: i32 = 24;
    pub const EOPNOTSUPP: i32 = 95;
    pub const EAFNOSUPPORT: i32 = 97;
    pub const ETIMEDOUT: i32 = 110;
    pub const EINPROGRESS: i32 = 115;
    pub const ERESTARTSYS: i32 = 512;
}

pub struct AFType;

impl AFType {
    pub const AF_UNIX: i32 = 1;
    pub const AF_INET: i32 = 2;
    pub const AF_INET6: i32 = 10;
    pub const AF_NETLINK: i32 = 16;
}

pub struct SockType;

impl SockType {
    pub const SOCK_STREAM: i32 = 1;
    pub const SOCK_DGRAM: i32 = 2;
}

pub struct SocketType;

impl SocketType {
    pub const SOCK_TYPE_MASK: i32 = 0xf;
}

pub struct SocketFlags;

impl SocketFlags {
    pub const SOCK_NONBLOCK: i32 = 0x800;
    pub const SOCK_CLOEXEC: i32 = 0x80000;
}

pub struct MsgType;

impl MsgType {
    pub const MSG_PEEK: i32 = 0x2;
    pub const MSG_CTRUNC: i32 = 0x8;
    pub const MSG_TRUNC: i32 = 0x20;
    pub const MSG_DONTWAIT: i32 = 0x40;
    pub const MSG_EOR: i32 = 0x80;
    pub const MSG_WAITALL: i32 = 0x100;
    pub const MSG_NOSIGNAL: i32 = 0x4000;
    pub const MSG_MORE: i32 = 0x8000;
    pub const MSG_FASTOPEN: i32 = 0x20000000;
}

pub struct LibcConst;

impl LibcConst {
    pub const SOL_SOCKET: u64 = 1;
    pub const SO_ERROR: u64 = 4;
    pub const SO_RCVTIMEO: u64 = 20;
    pub const SOL_TCP: u64 = 6;
    pub const TCP_INQ: u64 = 36;
    pub const SHUT_RD: u64 = 0;
    pub const SHUT_WR: u64 = 1;
    pub const SHUT_RDWR: u64 = 2;
    pub const SIOCGIFCONF: u64 = 0x8912;
    pub const SIOCGIFFLAGS: u64 = 0x8913;
    pub const SIOCGIFBRDADDR: u64 = 0x8919;
    pub const SIOCGIFDSTADDR: u64 = 0x8917;
    pub const SIOCGIFHWADDR: u64 = 0x8927;
    pub const SIOCGIFINDEX: u64 = 0x8933;
    pub const SIOCGIFMAP: u64 = 0x8970;
    pub const SIOCGIFMETRIC: u64 = 0x891d;
    pub const SIOCGIFMTU: u64 = 0x8921;
    pub const SIOCGIFNAME: u64 = 0x8910;
    pub const SIOCGIFNETMASK: u64 = 0x891b;
    pub const SIOCGIFTXQLEN: u64 = 0x8942;
    pub const TIOCINQ: u64 = 0x541b;
}

pub struct SocketSize;

impl SocketSize {
    pub const SIZEOF_SOCKADDR_INET4: usize = 16;
    pub const SIZEOF_SOCKADDR_INET6: usize = 28;
    pub const SIZEOF_TIMEVAL: usize = 16;
}

/// Largest address the socket layer ever hands to the host: a sockaddr is
/// silently truncated to this many bytes for INET/INET6 sockets.
pub const SIZEOF_SOCKADDR: usize = 28;

#[derive(Clone, Copy, PartialEq, Eq, Structural, Debug)]
pub enum Error {
    /// A Linux errno from a host call or a latched socket-buffer error.
    SysError(i32),
    /// The blocked task was interrupted by a signal.
    ErrInterrupted,
}

} // verus!
