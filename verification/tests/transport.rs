use quark_core::accept_queue::AcceptQueue;
use quark_core::accept_queue::TcpSockAddr;
use quark_core::linux_def::Error;
use quark_core::linux_def::SysErr;
use quark_core::linux_def::EVENT_ERR;
use quark_core::linux_def::EVENT_HUP;
use quark_core::linux_def::EVENT_IN;
use quark_core::linux_def::EVENT_PENDING_SHUTDOWN;
use quark_core::rdma::AckBytes;
use quark_core::rdma::Gid;
use quark_core::rdma::RDMADataSock;
use quark_core::rdma::RDMAInfo;
use quark_core::rdma::RDMAServerSock;
use quark_core::rdma::RDMAType;
use quark_core::rdma::ReadStep;
use quark_core::rdma::ReadyAction;
use quark_core::rdma::SocketState;
use quark_core::rdma::WriteAction;
use quark_core::rdma::ACK_DATA;
use quark_core::rdma::MAX_RECV_WR;
use quark_core::socket_buf::SocketBuff;

fn sample_info() -> RDMAInfo {
    RDMAInfo {
        raddr: 0x1122_3344_5566_7788,
        rlen: 1024,
        rkey: 0xdead_beef,
        qp_num: 77,
        lid: 0x1234,
        offset: 12,
        freespace: 1000,
        gid: Gid { raw: [9u8; 16] },
        sending: true,
    }
}

/// A client-side connection driven through the whole bootstrap.
fn ready_client() -> RDMADataSock {
    let mut sock = RDMADataSock::New(
        5,
        SocketBuff::default(),
        RDMAType::Client(7),
        0x10_0000,
        42,
        9,
        1,
        Gid { raw: [0u8; 16] },
    );
    match sock.Write() {
        WriteAction::SendLocalInfo(bytes) => assert_eq!(bytes.len(), 47),
        _ => panic!("Init must send the local record"),
    }
    assert_eq!(sock.SocketState(), SocketState::WaitingForRemoteMeta);
    assert_eq!(sock.Read(), ReadStep::RecvMeta);

    let peer = RDMAInfo {
        raddr: 0x20_0000,
        rlen: 1024,
        rkey: 43,
        qp_num: 10,
        lid: 2,
        offset: 0,
        freespace: 1024,
        gid: Gid { raw: [1u8; 16] },
        sending: false,
    };
    sock.RecvRemoteRDMAInfo(&peer.ToBytes()).unwrap();
    sock.SetupRDMA();
    assert_eq!(sock.SocketState(), SocketState::WaitingForRemoteReady);
    assert_eq!(sock.Read(), ReadStep::RecvAckData);
    match sock.RecvAck(ACK_DATA) {
        ReadyAction::CompleteConnect(h) => assert_eq!(h, 7),
        _ => panic!("a client completes its pending connect"),
    }
    assert_eq!(sock.SocketState(), SocketState::Ready);
    sock
}

#[test]
fn wire_record_is_47_packed_little_endian_bytes() {
    let info = sample_info();
    let bytes = info.ToBytes();
    assert_eq!(bytes.len(), 47);
    assert_eq!(&bytes[0..8], &[0x88, 0x77, 0x66, 0x55, 0x44, 0x33, 0x22, 0x11]);
    assert_eq!(&bytes[8..12], &[0x00, 0x04, 0x00, 0x00]);
    assert_eq!(&bytes[12..16], &[0xef, 0xbe, 0xad, 0xde]);
    assert_eq!(&bytes[16..20], &[77, 0, 0, 0]);
    assert_eq!(&bytes[20..22], &[0x34, 0x12]);
    assert_eq!(&bytes[22..26], &[12, 0, 0, 0]);
    assert_eq!(&bytes[26..30], &[0xe8, 0x03, 0, 0]);
    assert_eq!(&bytes[30..46], &[9u8; 16]);
    assert_eq!(bytes[46], 1);
    assert_eq!(RDMAInfo::Size(), 47);
}

#[test]
fn wire_record_round_trips() {
    let info = sample_info();
    let back = RDMAInfo::FromBytes(&info.ToBytes());
    assert_eq!(back.raddr, info.raddr);
    assert_eq!(back.rlen, info.rlen);
    assert_eq!(back.rkey, info.rkey);
    assert_eq!(back.qp_num, info.qp_num);
    assert_eq!(back.lid, info.lid);
    assert_eq!(back.offset, info.offset);
    assert_eq!(back.freespace, info.freespace);
    assert_eq!(back.gid.raw, info.gid.raw);
    assert_eq!(back.sending, info.sending);
}

#[test]
fn ack_bytes_are_fixed() {
    assert_eq!(AckBytes(), vec![0x90, 0x78, 0x56, 0x34, 0x12, 0, 0, 0]);
    assert_eq!(ACK_DATA, 0x1234567890);
}

#[test]
fn handshake_reaches_ready_with_full_recv_depth() {
    let sock = ready_client();
    // a ready socket has the full receive depth posted
    assert_eq!(sock.recvPostedCount, MAX_RECV_WR);
    assert_eq!(sock.Read(), ReadStep::RecvData);
}

#[test]
fn server_handshake_enqueues_the_accept() {
    let mut sock = RDMADataSock::New(
        6,
        SocketBuff::default(),
        RDMAType::Server(quark_core::rdma::RDMAServerSocketInfo {
            fd: 42,
            addr: TcpSockAddr::default(),
            len: 16,
        }),
        0x30_0000,
        1,
        2,
        3,
        Gid { raw: [0u8; 16] },
    );
    sock.Write();
    let peer = RDMAInfo {
        raddr: 0x40_0000,
        rlen: 512,
        rkey: 4,
        qp_num: 5,
        lid: 6,
        offset: 0,
        freespace: 512,
        gid: Gid { raw: [2u8; 16] },
        sending: false,
    };
    sock.RecvRemoteRDMAInfo(&peer.ToBytes()).unwrap();
    sock.SetupRDMA();
    match sock.RecvAck(ACK_DATA) {
        ReadyAction::EnqueueAccept(fd, _addr, len) => {
            assert_eq!(fd, 42);
            assert_eq!(len, 16);
        },
        _ => panic!("a server enqueues the accepted connection"),
    }
}

#[test]
fn invalid_remote_record_latches_einval() {
    let mut sock = RDMADataSock::New(
        5,
        SocketBuff::default(),
        RDMAType::Client(1),
        0,
        0,
        0,
        0,
        Gid { raw: [0u8; 16] },
    );
    sock.Write();
    // a peer ring of length zero is a protocol error
    let bad = RDMAInfo::default().ToBytes();
    let r = sock.RecvRemoteRDMAInfo(&bad);
    assert_eq!(r, Err(Error::SysError(SysErr::EINVAL)));
    assert_eq!(sock.SocketState(), SocketState::Error);
    assert_eq!(sock.socketBuf.Error(), SysErr::EINVAL);
}

#[test]
fn credit_return_rides_the_immediate_data() {
    // peer ring 1024 bytes with no free space left; 500 bytes pending
    // locally; the guest consumed 400 bytes from the read half. The next
    // WRITE_IMM carries no payload and 400 credits.
    let mut sock = ready_client();
    match &mut sock.rdmaType {
        RDMAType::Client(_) => {},
        _ => unreachable!(),
    }
    sock.remoteRDMAInfo.freespace = 0;
    sock.socketBuf.WriteData(500);
    sock.socketBuf.ProduceAndGetFreeReadBuf(400);
    sock.socketBuf.ReadData(400);

    let req = sock.RDMASendLocked().expect("credits alone trigger a send");
    assert_eq!(req.writeCount, 0);
    assert_eq!(req.readCount, 400);
    assert!(sock.remoteRDMAInfo.sending);
}

#[test]
fn send_is_single_flight() {
    let mut sock = ready_client();
    sock.socketBuf.WriteData(100);
    let first = sock.RDMASend();
    assert!(first.is_some());
    // while the WRITE_IMM is in flight no second one is issued
    assert!(sock.RDMASend().is_none());
    let (trigger, resend) = sock.ProcessRDMAWriteImmFinish();
    assert!(!trigger, "the ring was never full");
    assert!(resend.is_none(), "everything was sent");
    assert!(!sock.remoteRDMAInfo.sending);
}

#[test]
fn write_imm_lands_at_peer_cursor_and_clamps_to_freespace() {
    let mut sock = ready_client();
    sock.remoteRDMAInfo.freespace = 64;
    sock.socketBuf.WriteData(100);
    let req = sock.RDMASendLocked().unwrap();
    assert_eq!(req.remoteAddr, 0x20_0000, "payload lands at raddr + offset");
    assert_eq!(req.writeCount, 64, "clamped to the peer's free space");
    assert_eq!(sock.remoteRDMAInfo.freespace, 0);
    assert_eq!(sock.remoteRDMAInfo.offset, 64);
}

#[test]
fn returned_credit_unblocks_a_stalled_send() {
    let mut sock = ready_client();
    sock.remoteRDMAInfo.freespace = 0;
    sock.socketBuf.WriteData(500);
    // the peer wrote 100 bytes into our read half and returned 200 credits
    let (notify, resend) = sock.ProcessRDMARecvWriteImm(100, 200);
    assert_eq!(notify, EVENT_IN, "the read half went empty to non-empty");
    let req = resend.expect("the freed space kicks the sender");
    assert_eq!(req.writeCount, 200);
    assert_eq!(sock.remoteRDMAInfo.freespace, 0, "the resend used it all");
    assert_eq!(sock.recvPostedCount, MAX_RECV_WR, "one receive was reposted");
}

#[test]
fn host_read_end_of_stream_and_errors() {
    let mut sock = ready_client();
    let (_off, count) = sock.socketBuf.GetFreeReadBuf();
    // end of stream with no buffered data hangs up
    let (notify, more) = sock.ReadData(0, count);
    assert_eq!(notify, EVENT_HUP);
    assert!(!more);

    let mut sock = ready_client();
    let (_off, count) = sock.socketBuf.GetFreeReadBuf();
    // EAGAIN just ends the drain
    let (notify, more) = sock.ReadData(-(SysErr::EAGAIN as i64), count);
    assert_eq!(notify, 0);
    assert!(!more);
    // a real errno latches and surfaces EVENT_ERR|EVENT_IN
    let (notify, more) = sock.ReadData(-104, count);
    assert_eq!(notify, EVENT_ERR | EVENT_IN);
    assert!(!more);
    assert_eq!(sock.socketBuf.Error(), 104);
}

#[test]
fn host_read_produces_and_continues() {
    let mut sock = ready_client();
    let (_off, count) = sock.socketBuf.GetFreeReadBuf();
    let (notify, more) = sock.ReadData(count as i64, count);
    assert_eq!(notify, EVENT_IN, "empty to non-empty");
    assert!(!more, "the ring is full now");
    assert!(sock.socketBuf.HasReadData());
}

#[test]
fn host_write_signals_pending_shutdown_after_drain() {
    let mut sock = ready_client();
    sock.socketBuf.WriteData(100);
    sock.socketBuf.SetPendingWriteShutdown();
    let (_off, count) = sock.socketBuf.GetAvailableWriteBuf();
    assert_eq!(count, 100);
    let (notify, more) = sock.WriteData(100, count);
    assert_eq!(notify, EVENT_PENDING_SHUTDOWN);
    assert!(!more);
}

#[test]
fn notify_dispatch_prefers_latched_errors() {
    let mut sock = ready_client();
    let (err, wr, rd) = sock.Notify(EVENT_IN);
    assert!(!err);
    assert!(!wr);
    assert!(rd);
    let (err, wr, rd) = sock.Notify(quark_core::linux_def::EVENT_OUT);
    assert!(!err);
    assert!(wr);
    assert!(!rd);
    sock.socketBuf.SetErr(110);
    let (err, wr, rd) = sock.Notify(quark_core::linux_def::EVENT_READ);
    assert!(err);
    assert!(!wr && !rd);
}

#[test]
fn server_accept_loop_decisions() {
    let mut srv = RDMAServerSock::New(3, AcceptQueue::New(1));
    let (proceed, notify) = srv.AcceptCheck();
    assert!(proceed);
    assert_eq!(notify, 0);

    // without RDMA the connection goes straight onto the queue
    let (notify, more) =
        srv.AcceptOne(10, TcpSockAddr::default(), 16, SocketBuff::default(), false);
    assert_eq!(notify, EVENT_IN, "the queue went empty to non-empty");
    assert!(!more, "capacity 1 is reached");

    // EAGAIN ends the loop quietly; a real errno latches
    assert_eq!(srv.AcceptError(SysErr::EAGAIN), 0);
    assert_eq!(srv.AcceptError(24), EVENT_ERR | EVENT_IN);
    let (proceed, notify) = srv.AcceptCheck();
    assert!(!proceed);
    assert_eq!(notify, EVENT_ERR | EVENT_IN);

    // with RDMA the enqueue waits for the handshake
    let mut srv = RDMAServerSock::New(3, AcceptQueue::New(1));
    let (notify, more) = srv.AcceptOne(11, TcpSockAddr::default(), 16, SocketBuff::default(), true);
    assert_eq!(notify, 0);
    assert!(more);
    assert_eq!(srv.acceptQueue.Len(), 0);
}
