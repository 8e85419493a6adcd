use quark_core::accept_queue::TcpSockAddr;
use quark_core::linux_def::AFType;
use quark_core::linux_def::Error;
use quark_core::linux_def::MsgType;
use quark_core::linux_def::SockType;
use quark_core::linux_def::SocketFlags;
use quark_core::linux_def::SysErr;
use quark_core::linux_def::EVENT_IN;
use quark_core::linux_def::EVENT_OUT;
use quark_core::linux_def::EVENT_READ;
use quark_core::scheduler::Scheduler;
use quark_core::scheduler::TaskEntry;
use quark_core::scheduler::VcpuState;
use quark_core::socket::AcceptOutcome;
use quark_core::socket::Config;
use quark_core::socket::GetAddr;
use quark_core::socket::Init;
use quark_core::socket::IoctlClass;
use quark_core::socket::IoctlCmd;
use quark_core::socket::PostConnectAction;
use quark_core::socket::RecvBlockError;
use quark_core::socket::RecvMsgOutcome;
use quark_core::socket::SendBlockError;
use quark_core::socket::ConnectBlockError;
use quark_core::socket::RecvMsgFlagsInvalid;
use quark_core::socket::SendMsgFlagsInvalid;
use quark_core::socket::SendMsgOutcome;
use quark_core::socket::ShutdownStep;
use quark_core::socket::SocketBufType;
use quark_core::socket::SocketOperations;
use quark_core::socket::SocketProvider;
use quark_core::socket::Timeval;
use quark_core::socket::TruncateSockAddr;
use quark_core::socket::IfconfLenClamp;
use quark_core::socket_buf::SocketBuff;
use quark_core::task_mgr::DecrActiveTask;
use quark_core::task_mgr::IncrActiveTask;
use quark_core::task_mgr::IoWaitIdle;
use quark_core::task_mgr::PollAsyncMsgBusy;
use quark_core::task_mgr::ShouldVcpuWait;
use quark_core::task_mgr::IO_WAIT_CYCLES;
use quark_core::vm::ExitStatus;
use quark_core::vm::GetExitStatus;
use quark_core::vm::IsRunning;
use quark_core::vm::SetExitStatus;

const NO_ACCEL: Config = Config { EnableRDMA: false, UringIO: false, AsyncAccept: false };
const URING: Config = Config { EnableRDMA: false, UringIO: true, AsyncAccept: false };
const RDMA_ON: Config = Config { EnableRDMA: true, UringIO: false, AsyncAccept: false };
const ASYNC_ACCEPT: Config = Config { EnableRDMA: false, UringIO: false, AsyncAccept: true };

/// 127.0.0.1:3456 as a sockaddr_in (the port is big-endian on the wire).
fn addr4() -> Vec<u8> {
    vec![2, 0, 0x0d, 0x80, 127, 0, 0, 1, 0, 0, 0, 0, 0, 0, 0, 0]
}

fn tcp_socket() -> SocketOperations {
    let provider = SocketProvider { family: AFType::AF_INET };
    let (sock, _nonblock) = provider.Socket(SockType::SOCK_STREAM, 33).unwrap();
    sock
}

fn buffered_socket() -> SocketOperations {
    let mut sock = tcp_socket();
    let action = sock.ConnectDone(addr4(), &URING).unwrap();
    assert_eq!(action, PostConnectAction::UringInit);
    sock
}

fn produce_read_data(sock: &mut SocketOperations, n: u64) {
    match &mut sock.0.socketBuf {
        SocketBufType::Uring(b) => {
            b.ProduceAndGetFreeReadBuf(n);
        },
        SocketBufType::RDMA(b) => {
            b.ProduceAndGetFreeReadBuf(n);
        },
        _ => unreachable!(),
    }
}

#[test]
fn provider_picks_the_lifecycle_start() {
    let inet = SocketProvider { family: AFType::AF_INET };
    let (sock, nonblock) =
        inet.Socket(SockType::SOCK_STREAM | SocketFlags::SOCK_NONBLOCK, 3).unwrap();
    assert!(matches!(sock.0.socketBuf, SocketBufType::TCPInit));
    assert!(nonblock);

    let (udp, nonblock) = inet.Socket(SockType::SOCK_DGRAM, 4).unwrap();
    assert!(matches!(udp.0.socketBuf, SocketBufType::NoTCP));
    assert!(!nonblock);

    let netlink = SocketProvider { family: AFType::AF_NETLINK };
    let (sock, _) = netlink.Socket(SockType::SOCK_STREAM, 5).unwrap();
    assert!(matches!(sock.0.socketBuf, SocketBufType::NoTCP));

    let providers = Init();
    assert_eq!(providers.len(), 3);
    assert_eq!(providers[0].family, AFType::AF_INET);
    assert_eq!(providers[1].family, AFType::AF_INET6);
    assert_eq!(providers[2].family, AFType::AF_NETLINK);
}

#[test]
fn connect_picks_transport_from_config() {
    let mut sock = tcp_socket();
    let action = sock.ConnectDone(addr4(), &RDMA_ON).unwrap();
    assert_eq!(action, PostConnectAction::RdmaConnect);
    assert!(matches!(sock.0.socketBuf, SocketBufType::RDMA(_)));

    let mut sock = tcp_socket();
    let action = sock.ConnectDone(addr4(), &URING).unwrap();
    assert_eq!(action, PostConnectAction::UringInit);
    assert!(matches!(sock.0.socketBuf, SocketBufType::Uring(_)));

    let mut sock = tcp_socket();
    let action = sock.ConnectDone(addr4(), &NO_ACCEL).unwrap();
    assert_eq!(action, PostConnectAction::NoAction);
    assert!(matches!(sock.0.socketBuf, SocketBufType::TCPNormalData));

    // UDP connect carries no transport
    let inet = SocketProvider { family: AFType::AF_INET };
    let (mut udp, _) = inet.Socket(SockType::SOCK_DGRAM, 4).unwrap();
    let action = udp.ConnectDone(addr4(), &RDMA_ON).unwrap();
    assert_eq!(action, PostConnectAction::NoAction);
    assert!(matches!(udp.0.socketBuf, SocketBufType::NoTCP));
}

#[test]
fn remote_addr_round_trips() {
    let mut sock = tcp_socket();
    sock.SetRemoteAddr(addr4()).unwrap();
    assert_eq!(sock.GetRemoteAddr(), Some(addr4()));
}

#[test]
fn get_addr_validates_families() {
    let short = vec![2u8, 0, 1];
    assert!(GetAddr(2, &short).is_err());
    let unknown = vec![99u8, 0, 0, 0];
    assert!(GetAddr(99, &unknown).is_err());
    // an INET6 sockaddr keeps its 28-byte prefix
    let mut v6 = vec![10u8; 32];
    v6[0] = 10;
    let a = GetAddr(10, &v6).unwrap();
    assert_eq!(a.Len(), 28);
}

#[test]
fn oversized_inet_sockaddr_is_truncated() {
    let long = vec![2u8; 40];
    let t = TruncateSockAddr(AFType::AF_INET, &long);
    assert_eq!(t.len(), 28);
    assert_eq!(&t[..], &long[..28]);
    // non-inet families pass through whole
    let unix = vec![1u8; 40];
    let t = TruncateSockAddr(AFType::AF_UNIX, &unix);
    assert_eq!(t.len(), 40);
}

#[test]
fn listen_clamps_backlog_to_five() {
    let mut sock = tcp_socket();
    sock.Listen(0, &RDMA_ON, 0).unwrap();
    match &sock.0.socketBuf {
        SocketBufType::TCPRDMAServer(q) => assert_eq!(q.queueLen, 5),
        _ => panic!("EnableRDMA listens as an RDMA server"),
    }

    let mut sock = tcp_socket();
    sock.Listen(-3, &ASYNC_ACCEPT, 0).unwrap();
    match &sock.0.socketBuf {
        SocketBufType::TCPUringlServer(q) => assert_eq!(q.queueLen, 5),
        _ => panic!("AsyncAccept listens as a uring server"),
    }
    assert!(sock.AsyncAcceptEnabled());

    // re-listen only resizes
    sock.Listen(9, &ASYNC_ACCEPT, 0).unwrap();
    match &sock.0.socketBuf {
        SocketBufType::TCPUringlServer(q) => assert_eq!(q.queueLen, 9),
        _ => unreachable!(),
    }

    let mut sock = tcp_socket();
    sock.Listen(5, &NO_ACCEL, 0).unwrap();
    assert!(matches!(sock.0.socketBuf, SocketBufType::TCPNormalServer));

    let mut sock = tcp_socket();
    let r = sock.Listen(5, &RDMA_ON, -98);
    assert_eq!(r, Err(Error::SysError(98)));
}

#[test]
fn nonblocking_accept_on_empty_queue_is_eagain() {
    let mut sock = tcp_socket();
    sock.Listen(5, &RDMA_ON, 0).unwrap();
    let r = sock.Accept(64, 0, false);
    match r {
        Err(Error::SysError(n)) => assert_eq!(n, SysErr::EAGAIN),
        _ => panic!("an empty queue must fail with EAGAIN"),
    }
    // a blocking accept parks instead
    let r = sock.Accept(64, 0, true).unwrap();
    assert!(matches!(r, AcceptOutcome::Block));
}

#[test]
fn blocking_accept_returns_the_enqueued_child() {
    let mut sock = tcp_socket();
    sock.Listen(5, &RDMA_ON, 0).unwrap();
    let mut peer = TcpSockAddr::default();
    peer.data[..16].copy_from_slice(&addr4());
    match &mut sock.0.socketBuf {
        SocketBufType::TCPRDMAServer(q) => {
            let (trigger, _space) = q.EnqSocket(42, peer, 16, SocketBuff::default());
            assert!(trigger, "the first connection wakes the acceptor");
        },
        _ => unreachable!(),
    }
    let flags = SocketFlags::SOCK_NONBLOCK | SocketFlags::SOCK_CLOEXEC;
    match sock.Accept(64, flags, true).unwrap() {
        AcceptOutcome::Child(child, addrOut, addrLen, nonblock, cloexec) => {
            assert_eq!(child.0.fd, 42);
            assert!(matches!(child.0.socketBuf, SocketBufType::RDMA(_)));
            assert_eq!(addrOut, addr4());
            assert_eq!(addrLen, 16);
            assert!(nonblock);
            assert!(cloexec);
            assert_eq!(child.GetRemoteAddr(), Some(addr4()));
            // the child's readiness is a subset of what was asked for
            let r = child.Readiness(EVENT_IN | EVENT_OUT);
            assert_eq!(r & !(EVENT_IN | EVENT_OUT), 0);
        },
        _ => panic!("a queued connection must come back"),
    }
}

#[test]
fn recv_zero_bytes_returns_nothing() {
    let mut sock = buffered_socket();
    match sock.RecvMsg(0, 0, false, 0).unwrap() {
        RecvMsgOutcome::Done(cnt, flags, sender, control) => {
            assert_eq!(cnt, 0);
            assert_eq!(flags, 0);
            assert!(sender.is_none());
            assert!(control.is_empty());
        },
        _ => panic!("a zero-byte receive never blocks"),
    }
}

#[test]
fn recv_partial_then_hup_then_eof() {
    let mut sock = buffered_socket();
    produce_read_data(&mut sock, 7);
    match sock.RecvMsg(16, MsgType::MSG_DONTWAIT, false, 0).unwrap() {
        RecvMsgOutcome::Done(cnt, flags, sender, control) => {
            assert_eq!(cnt, 7);
            assert_eq!(flags, 0);
            assert!(sender.is_none());
            assert!(control.is_empty());
        },
        _ => panic!("buffered data must be returned"),
    }
    match &mut sock.0.socketBuf {
        SocketBufType::Uring(b) => b.SetRClosed(),
        _ => unreachable!(),
    }
    let ev = sock.Readiness(EVENT_READ);
    assert_eq!(ev & (EVENT_IN | quark_core::linux_def::EVENT_HUP),
        EVENT_IN | quark_core::linux_def::EVENT_HUP);
    match sock.RecvMsg(16, MsgType::MSG_DONTWAIT, false, 0).unwrap() {
        RecvMsgOutcome::Done(cnt, _, _, _) => assert_eq!(cnt, 0),
        _ => panic!("a drained, closed half reads as end of stream"),
    }
}

#[test]
fn recv_on_empty_open_buffer_blocks_or_fails() {
    let mut sock = buffered_socket();
    let r = sock.RecvMsg(16, MsgType::MSG_DONTWAIT, false, 0);
    assert_eq!(
        match r {
            Err(Error::SysError(n)) => n,
            _ => 0,
        },
        SysErr::EWOULDBLOCK
    );
    let r = sock.RecvMsg(16, 0, false, 0).unwrap();
    assert!(matches!(r, RecvMsgOutcome::Block));
}

#[test]
fn recv_reports_the_sender_on_request() {
    let mut sock = buffered_socket();
    produce_read_data(&mut sock, 3);
    match sock.RecvMsg(16, 0, true, 0).unwrap() {
        RecvMsgOutcome::Done(cnt, _, sender, _) => {
            assert_eq!(cnt, 3);
            assert_eq!(sender, Some(addr4()));
        },
        _ => panic!("data was buffered"),
    }
}

#[test]
fn send_queues_what_fits() {
    let mut sock = buffered_socket();
    match sock.SendMsg(100, 0, false, false).unwrap() {
        SendMsgOutcome::Done(n) => assert_eq!(n, 100),
        _ => panic!("space was free"),
    }
    // fill the ring: the next send must block or fail
    let cap = 16 * 4096;
    match sock.SendMsg(cap, 0, false, false).unwrap() {
        SendMsgOutcome::Done(n) => assert_eq!(n, cap - 100),
        _ => panic!("the remaining space is taken"),
    }
    let r = sock.SendMsg(1, MsgType::MSG_DONTWAIT, false, false);
    assert_eq!(
        match r {
            Err(Error::SysError(n)) => n,
            _ => 0,
        },
        SysErr::EWOULDBLOCK
    );
    let r = sock.SendMsg(1, 0, false, false).unwrap();
    assert!(matches!(r, SendMsgOutcome::Block));
}

#[test]
fn send_on_closed_half_is_epipe() {
    let mut sock = buffered_socket();
    match &mut sock.0.socketBuf {
        SocketBufType::Uring(b) => b.SetWClosed(),
        _ => unreachable!(),
    }
    let r = sock.SendMsg(1, 0, false, false);
    assert_eq!(
        match r {
            Err(Error::SysError(n)) => n,
            _ => 0,
        },
        SysErr::EPIPE
    );
}

#[test]
fn shutdown_drains_the_write_half_first() {
    let mut sock = buffered_socket();
    sock.SendMsg(100, 0, false, false).unwrap();
    // write data pending: the caller must block until the half drains
    let step = sock.Shutdown(1).unwrap();
    assert_eq!(step, ShutdownStep::Block);
    match &mut sock.0.socketBuf {
        SocketBufType::Uring(b) => {
            assert!(b.PendingWriteShutdown());
            b.ConsumeAndGetAvailableWriteBuf(100);
        },
        _ => unreachable!(),
    }
    // drained: the host shutdown goes out now
    let step = sock.Shutdown(1).unwrap();
    assert_eq!(step, ShutdownStep::Host(1));
    // an unknown how is invalid
    assert_eq!(sock.Shutdown(9), Err(Error::SysError(SysErr::EINVAL)));
}

#[test]
fn rcvtimeo_sets_the_receive_timeout() {
    let mut sock = buffered_socket();
    // struct timeval { sec = 3, usec = 500 }
    let mut tv = vec![0u8; 16];
    tv[0] = 3;
    tv[8] = 0xf4;
    tv[9] = 0x01;
    sock.SetSockOpt(1, 20, &tv).unwrap();
    assert_eq!(sock.RecvTimeout(), 3_000_500_000);
    // a short buffer is invalid
    let r = sock.SetSockOpt(1, 20, &vec![0u8; 8]);
    assert_eq!(r, Err(Error::SysError(SysErr::EINVAL)));
    assert_eq!(sock.SendTimeout(), 0);
}

#[test]
fn timeval_conversion_saturates() {
    let tv = Timeval { Sec: 2, Usec: 1 };
    assert_eq!(tv.ToDuration(), 2_000_001_000);
    let tv = Timeval { Sec: i64::MAX, Usec: 0 };
    assert_eq!(tv.ToDuration(), i64::MAX);
}

#[test]
fn tcp_inq_short_payload_is_ignored() {
    let mut sock = buffered_socket();
    sock.SetSockOpt(6, 36, &vec![1, 0]).unwrap();
    let (_, control) = sock.prepareControlMessage(24);
    assert!(control.is_empty(), "a two-byte payload cannot toggle TCP_INQ");
}

#[test]
fn accept_without_addr_buffer_keeps_family_prefix() {
    let mut sock = tcp_socket();
    sock.Listen(5, &RDMA_ON, 0).unwrap();
    let mut peer = TcpSockAddr::default();
    peer.data[..16].copy_from_slice(&addr4());
    match &mut sock.0.socketBuf {
        SocketBufType::TCPRDMAServer(q) => {
            q.EnqSocket(42, peer, 16, SocketBuff::default());
        },
        _ => unreachable!(),
    }
    match sock.Accept(0, 0, true).unwrap() {
        AcceptOutcome::Child(child, addrOut, addrLen, _, _) => {
            assert!(addrOut.is_empty());
            assert_eq!(addrLen, 0);
            // the child still records the family-sized peer address
            assert_eq!(child.GetRemoteAddr(), Some(addr4()));
        },
        _ => panic!("a queued connection must come back"),
    }
}

#[test]
fn tcp_inq_toggles_the_control_message() {
    let mut sock = buffered_socket();
    sock.SetSockOpt(6, 36, &vec![1, 0, 0, 0]).unwrap();
    produce_read_data(&mut sock, 5);
    let (flags, control) = sock.prepareControlMessage(24);
    assert_eq!(flags, 0);
    let mut expected = vec![20u8, 0, 0, 0, 0, 0, 0, 0];
    expected.extend_from_slice(&[6, 0, 0, 0]);
    expected.extend_from_slice(&[36, 0, 0, 0]);
    expected.extend_from_slice(&[5, 0, 0, 0]);
    expected.extend_from_slice(&[0, 0, 0, 0]);
    assert_eq!(control, expected);
    // too little room: the control data is truncated away
    let (flags, control) = sock.prepareControlMessage(10);
    assert_eq!(flags, MsgType::MSG_CTRUNC);
    assert!(control.is_empty());
    // the buffered receive path always passes zero
    let (flags, control) = sock.prepareControlMessage(0);
    assert_eq!(flags, 0);
    assert!(control.is_empty());
    // toggled off again
    sock.SetSockOpt(6, 36, &vec![0, 0, 0, 0]).unwrap();
    let (_, control) = sock.prepareControlMessage(24);
    assert!(control.is_empty());
}

#[test]
fn msg_flag_validation() {
    assert!(!RecvMsgFlagsInvalid(MsgType::MSG_DONTWAIT | MsgType::MSG_PEEK));
    assert!(RecvMsgFlagsInvalid(MsgType::MSG_EOR));
    assert!(!SendMsgFlagsInvalid(MsgType::MSG_NOSIGNAL | MsgType::MSG_MORE));
    assert!(SendMsgFlagsInvalid(MsgType::MSG_PEEK));
}

#[test]
fn blocking_error_translations() {
    assert_eq!(
        RecvBlockError(Error::SysError(SysErr::ETIMEDOUT)),
        Error::SysError(SysErr::EAGAIN)
    );
    assert_eq!(RecvBlockError(Error::ErrInterrupted), Error::SysError(SysErr::ERESTARTSYS));
    assert_eq!(RecvBlockError(Error::SysError(5)), Error::SysError(5));
    assert_eq!(
        SendBlockError(Error::SysError(SysErr::ETIMEDOUT)),
        Error::SysError(SysErr::EWOULDBLOCK)
    );
    assert_eq!(ConnectBlockError(Error::ErrInterrupted), Error::SysError(SysErr::ERESTARTSYS));
}

#[test]
fn event_registration_hints_the_host_watch() {
    let mut sock = tcp_socket();
    // a plain socket is watched on the host fd
    assert!(sock.EventRegister(1, EVENT_IN));
    assert!(sock.EventUnregister(1));
    let waiters = sock.Notify(EVENT_IN);
    assert!(waiters.is_empty());

    let mut sock = buffered_socket();
    assert!(!sock.EventRegister(2, EVENT_READ));
    assert_eq!(sock.Notify(EVENT_IN), vec![2]);
    assert!(!sock.EventUnregister(2));
}

#[test]
fn ioctl_routing() {
    assert_eq!(IoctlClass(0x8913), IoctlCmd::IfReq);
    assert_eq!(IoctlClass(0x8912), IoctlCmd::IfConf);
    assert_eq!(IoctlClass(0x541b), IoctlCmd::Inq);
    assert_eq!(IoctlClass(0x5401), IoctlCmd::PassThrough);
    assert_eq!(IfconfLenClamp(1000), 1000);
    assert_eq!(IfconfLenClamp(-1), 0x4_0000);
    assert_eq!(IfconfLenClamp(0x10_0000), 0x4_0000);
}

#[test]
fn scheduler_conserves_the_ready_count() {
    let mut s = Scheduler::New(2);
    assert_eq!(s.Count(), 0);
    s.Schedule(TaskEntry { taskId: 11, queueId: 0, ready: true });
    s.Schedule(TaskEntry { taskId: 12, queueId: 1, ready: true });
    s.NewTask(TaskEntry { taskId: 13, queueId: 1, ready: true });
    assert_eq!(s.GlobalReadyTaskCnt(), 3);
    assert_eq!(s.Count(), 3, "the queues sum to the global count");
    let (t, _wake) = s.GetNext(0, 999);
    assert!(t.is_some());
    assert_eq!(s.Count(), 2);
}

#[test]
fn work_stealing_rewrites_the_home_queue() {
    let mut s = Scheduler::New(2);
    s.SetVcpuState(0, VcpuState::Running);
    s.SetVcpuState(1, VcpuState::Running);
    // three tasks on vCPU 0, vCPU 1 idle
    s.ScheduleQ(TaskEntry { taskId: 21, queueId: 0, ready: true }, 0);
    s.ScheduleQ(TaskEntry { taskId: 22, queueId: 0, ready: true }, 0);
    s.ScheduleQ(TaskEntry { taskId: 23, queueId: 0, ready: true }, 0);
    let (stolen, _wake) = s.GetNext(1, 999);
    let stolen = stolen.expect("vCPU 1 steals from vCPU 0");
    assert_eq!(stolen.queueId, 1, "the stolen task moves home");
    assert_eq!(s.GlobalReadyTaskCnt(), 2);
    assert_eq!(s.Count(), 2);
}

#[test]
fn stealing_only_from_running_vcpus() {
    let mut s = Scheduler::New(3);
    s.ScheduleQ(TaskEntry { taskId: 31, queueId: 2, ready: true }, 2);
    // vCPU 2 is waiting: its queue may not be robbed
    let (t, _) = s.GetNextForCpu(0, 2, 999);
    assert!(t.is_none());
    s.SetVcpuState(2, VcpuState::Running);
    let (t, _) = s.GetNextForCpu(0, 2, 999);
    assert_eq!(t.unwrap().taskId, 31);
}

#[test]
fn unready_tasks_are_requeued() {
    let mut s = Scheduler::New(1);
    s.ScheduleQ(TaskEntry { taskId: 41, queueId: 0, ready: false }, 0);
    let (t, _) = s.GetNextForCpu(0, 0, 999);
    assert!(t.is_none(), "an unready context is skipped");
    assert_eq!(s.Count(), 1, "and stays queued");
    // the current task may be resumed even before its context is saved
    let (t, _) = s.GetNextForCpu(0, 0, 41);
    assert_eq!(t.unwrap().taskId, 41);
}

#[test]
fn local_surplus_asks_for_a_wake() {
    let mut s = Scheduler::New(2);
    s.SetVcpuState(0, VcpuState::Running);
    s.ScheduleQ(TaskEntry { taskId: 51, queueId: 0, ready: true }, 0);
    s.ScheduleQ(TaskEntry { taskId: 52, queueId: 0, ready: true }, 0);
    let (t, wake) = s.GetNextForCpu(0, 0, 999);
    assert!(t.is_some());
    assert!(wake, "more local work: wake a halted vCPU");
    assert_eq!(s.WakeOne(), Some(1), "vCPU 1 is still waiting");
    s.SetVcpuState(1, VcpuState::Running);
    assert_eq!(s.WakeOne(), None);
}

#[test]
fn halt_bookkeeping_and_wait_decision() {
    let mut s = Scheduler::New(1);
    assert!(ShouldVcpuWait(&s));
    s.IncreaseHaltVcpuCnt();
    assert_eq!(s.haltVcpuCnt, 1);
    s.DecreaseHaltVcpuCnt();
    assert_eq!(s.haltVcpuCnt, 0);
    s.NewTask(TaskEntry { taskId: 61, queueId: 0, ready: true });
    assert!(!ShouldVcpuWait(&s));
}

#[test]
fn active_task_counter() {
    let mut count: u32 = 0;
    assert_eq!(IncrActiveTask(&mut count), 0);
    assert_eq!(IncrActiveTask(&mut count), 1);
    assert_eq!(DecrActiveTask(&mut count), 2);
    assert_eq!(count, 1);
}

#[test]
fn io_wait_deadline() {
    assert!(!IoWaitIdle(0, IO_WAIT_CYCLES - 1));
    assert!(IoWaitIdle(0, IO_WAIT_CYCLES));
    // more than ten drained completions count as a busy round
    assert!(!PollAsyncMsgBusy(10));
    assert!(PollAsyncMsgBusy(11));
}

#[test]
fn exit_status_latch() {
    let mut status = ExitStatus::default();
    assert!(IsRunning(&status));
    SetExitStatus(&mut status, 3);
    assert!(!IsRunning(&status));
    assert_eq!(GetExitStatus(&status), 3);
}
