use quark_core::accept_queue::AcceptQueue;
use quark_core::accept_queue::TcpSockAddr;
use quark_core::linux_def::EVENT_ERR;
use quark_core::linux_def::EVENT_HUP;
use quark_core::linux_def::EVENT_IN;
use quark_core::linux_def::EVENT_OUT;
use quark_core::linux_def::EVENT_PENDING_SHUTDOWN;
use quark_core::socket_buf::RingBuf;
use quark_core::socket_buf::SocketBuff;
use quark_core::waiter::Queue;

#[test]
fn ring_conservation_after_produce_and_consume() {
    let mut rb = RingBuf::New(8);
    assert_eq!(rb.AvailableDataSize(), 0);
    assert_eq!(rb.AvailableSpace(), 8);

    let trigger = rb.Produce(5);
    assert!(trigger, "empty to non-empty must trigger");
    assert_eq!(rb.AvailableDataSize(), 5);
    assert_eq!(rb.AvailableSpace(), 3);

    let trigger = rb.Consume(3);
    assert!(!trigger, "the ring was not full");
    assert_eq!(rb.AvailableDataSize(), 2);
    assert_eq!(rb.AvailableSpace(), 6);
}

#[test]
fn ring_wraparound_regions() {
    let mut rb = RingBuf::New(8);
    rb.Produce(8);
    assert_eq!(rb.AvailableSpace(), 0);
    let trigger = rb.Consume(6);
    assert!(trigger, "full to non-full must trigger");
    // head = 6, len = 2: data region is [6, 2), free region wraps at 0
    let (off, cnt) = rb.GetDataBuf();
    assert_eq!((off, cnt), (6, 2));
    let (off, cnt) = rb.GetSpaceBuf();
    assert_eq!((off, cnt), (0, 6));

    rb.Produce(5);
    assert_eq!(rb.AvailableDataSize(), 7);
    let (off, cnt) = rb.GetDataBuf();
    assert_eq!((off, cnt), (6, 2));
}

#[test]
fn fresh_buffer_is_writable_only() {
    let buf = SocketBuff::default();
    assert_eq!(buf.Events(), EVENT_OUT);
    assert_eq!(buf.ReadBufSize(), 16 * 4096);
    assert!(!buf.HasReadData());
    assert!(!buf.HasWriteData());
}

#[test]
fn err_is_sticky_and_dominates_readiness() {
    let mut buf = SocketBuff::default();
    buf.SetErr(104);
    assert_eq!(buf.Error(), 104);
    buf.SetErr(22);
    assert_eq!(buf.Error(), 104, "the first latched error wins");
    let ev = buf.Events();
    assert_eq!(ev & (EVENT_ERR | EVENT_IN), EVENT_ERR | EVENT_IN);
}

#[test]
fn read_half_close_drains_to_hup() {
    // a peer sends 7 bytes and half-closes; the reader gets the 7 bytes,
    // then sees EVENT_IN|EVENT_HUP, then end of stream
    let mut buf = SocketBuff::default();
    let (trigger, _off, _cnt) = buf.ProduceAndGetFreeReadBuf(7);
    assert!(trigger);
    buf.SetRClosed();
    let got = buf.ReadData(16);
    assert_eq!(got, 7);
    let ev = buf.Events();
    assert_eq!(ev & (EVENT_IN | EVENT_HUP), EVENT_IN | EVENT_HUP);
    let got = buf.ReadData(16);
    assert_eq!(got, 0);
}

#[test]
fn consume_credits_accumulate_and_clear() {
    let mut buf = SocketBuff::default();
    buf.ProduceAndGetFreeReadBuf(400);
    let got = buf.ReadData(400);
    assert_eq!(got, 400);
    assert_eq!(buf.GetAndClearConsumeReadData(), 400);
    assert_eq!(buf.GetAndClearConsumeReadData(), 0);
}

#[test]
fn write_half_bookkeeping() {
    let mut buf = SocketBuff::default();
    let queued = buf.WriteData(100);
    assert_eq!(queued, 100);
    assert!(buf.HasWriteData());
    let (trigger, _off, remaining) = buf.ConsumeAndGetAvailableWriteBuf(60);
    assert!(!trigger);
    assert_eq!(remaining, 40);
    let (_t, _o, remaining) = buf.ConsumeAndGetAvailableWriteBuf(40);
    assert_eq!(remaining, 0);
}

#[test]
fn pending_shutdown_shows_after_drain() {
    let mut buf = SocketBuff::default();
    buf.WriteData(10);
    buf.SetPendingWriteShutdown();
    assert_eq!(buf.Events() & EVENT_PENDING_SHUTDOWN, 0, "not drained yet");
    buf.ConsumeAndGetAvailableWriteBuf(10);
    assert_eq!(buf.Events() & EVENT_PENDING_SHUTDOWN, EVENT_PENDING_SHUTDOWN);
}

#[test]
fn accept_queue_respects_capacity() {
    let mut q = AcceptQueue::New(2);
    let (trigger, has_space) = q.EnqSocket(3, TcpSockAddr::default(), 16, SocketBuff::default());
    assert!(trigger, "empty to non-empty");
    assert!(has_space);
    let (trigger, has_space) = q.EnqSocket(4, TcpSockAddr::default(), 16, SocketBuff::default());
    assert!(!trigger);
    assert!(!has_space, "the queue is full now");
    // an enqueue on a full queue refuses and drops nothing
    let (trigger, has_space) = q.EnqSocket(5, TcpSockAddr::default(), 16, SocketBuff::default());
    assert_eq!((trigger, has_space), (false, false));
    assert_eq!(q.Len(), 2);
    // FIFO order
    let first = q.DeqSocket().unwrap();
    assert_eq!(first.fd, 3);
    let second = q.DeqSocket().unwrap();
    assert_eq!(second.fd, 4);
    assert!(q.DeqSocket().is_none());
}

#[test]
fn accept_queue_error_latch() {
    let mut q = AcceptQueue::New(4);
    assert_eq!(q.Events(), 0);
    q.SetErr(24);
    q.SetErr(13);
    assert_eq!(q.Error(), 24, "the first latched error wins");
    assert_eq!(q.Events(), EVENT_ERR | EVENT_IN);
    // no further enqueues once the error is latched
    let r = q.EnqSocket(9, TcpSockAddr::default(), 16, SocketBuff::default());
    assert_eq!(r, (false, false));
    assert_eq!(q.Len(), 0);
}

#[test]
fn accept_queue_relisten_never_drops() {
    let mut q = AcceptQueue::New(4);
    q.EnqSocket(1, TcpSockAddr::default(), 16, SocketBuff::default());
    q.EnqSocket(2, TcpSockAddr::default(), 16, SocketBuff::default());
    q.SetQueueLen(1);
    assert_eq!(q.Len(), 2, "queued connections survive a shrink");
    assert!(!q.HasSpace());
}

#[test]
fn waiter_register_is_idempotent() {
    let mut q = Queue::New();
    q.EventRegister(1, EVENT_IN);
    q.EventRegister(1, EVENT_IN);
    assert_eq!(q.Len(), 1);
    q.EventRegister(1, EVENT_OUT);
    assert_eq!(q.Len(), 1, "re-registering only updates the mask");
    assert_eq!(q.Notify(EVENT_OUT), vec![1]);
    assert!(q.Notify(EVENT_IN).is_empty());
}

#[test]
fn waiter_register_unregister_round_trip() {
    let mut q = Queue::New();
    q.EventRegister(7, EVENT_IN);
    q.EventRegister(8, EVENT_OUT);
    q.EventRegister(9, EVENT_IN | EVENT_OUT);
    q.EventUnregister(9);
    q.EventUnregister(9);
    assert_eq!(q.Len(), 2, "double unregister is a no-op");
    assert_eq!(q.Notify(EVENT_IN), vec![7]);
    assert_eq!(q.Notify(EVENT_OUT), vec![8]);
    assert_eq!(q.Notify(EVENT_IN | EVENT_OUT), vec![7, 8]);
}
