//! Verified core of a KVM-based sandbox's host-networking fast path and
//! cooperative scheduler: the shared socket ring buffer, the accept queue,
//! the RDMA credit-flow engine with its bootstrap handshake, the per-socket
//! state machine, the waiter/event queue, and the work-stealing run queues.
//!
//! All host I/O (syscalls, io_uring submission, RDMA verbs, KVM ioctls) is
//! performed by the surrounding runtime; this crate holds the decisions and
//! the bookkeeping, each function with a proved contract.
#![allow(non_snake_case)]

pub mod linux_def;
pub mod socket_buf;
pub mod accept_queue;
pub mod waiter;
pub mod scheduler;
pub mod rdma;
pub mod socket;
pub mod task_mgr;
pub mod vm;
