use utp::pending::{socket_call, Completion, OpSlot, Polled, SocketCall, StreamOp, StreamSlots};
use utp::stream::{read_chunk_len, read_delivery, MAX_READ_CHUNK};

const ALL_OPS: [StreamOp; 4] = [StreamOp::Read, StreamOp::Write, StreamOp::Flush, StreamOp::Shutdown];

#[test]
fn read_chunk_is_bounded() {
    assert_eq!(MAX_READ_CHUNK, 1380);
    assert_eq!(read_chunk_len(0), 0);
    assert_eq!(read_chunk_len(3), 3);
    assert_eq!(read_chunk_len(1024), 1024);
    assert_eq!(read_chunk_len(1379), 1379);
    assert_eq!(read_chunk_len(1380), 1380);
    assert_eq!(read_chunk_len(1381), 1380);
    assert_eq!(read_chunk_len(1024 * 1024), 1380);
    assert_eq!(read_chunk_len(usize::MAX), 1380);
}

#[test]
fn read_delivers_exactly_the_bytes_read() {
    assert_eq!(read_delivery(vec![0, 1, 2], 3), vec![0, 1, 2]);
    // Only the bytes the socket wrote reach the caller, never the rest of the chunk.
    assert_eq!(read_delivery(vec![7, 8, 9, 0, 0, 0, 0, 0, 0, 0], 3), vec![7, 8, 9]);
    assert_eq!(read_delivery(vec![7, 8, 9], 0), Vec::<u8>::new());
    assert_eq!(read_delivery(Vec::new(), 0), Vec::<u8>::new());
}

#[test]
fn delivery_fits_buffer() {
    for remaining in [0usize, 1, 3, 1380, 1381, 4096] {
        let len = read_chunk_len(remaining);
        for nread in [0, len / 2, len] {
            let d = read_delivery(vec![0xab; len], nread);
            assert_eq!(d.len(), nread);
            assert!(d.len() <= remaining);
            assert!(d.len() <= MAX_READ_CHUNK);
        }
    }
}

#[test]
fn read_poll_records_chunk_and_delivers_read_bytes() {
    let mut s = StreamSlots::new();
    assert_eq!(s.read_chunk(), 0);
    assert_eq!(s.begin_read(10), Some(10));
    assert_eq!(s.read_chunk(), 10);
    let pending: Polled<Result<(Vec<u8>, usize), String>> = Polled::Pending;
    assert_eq!(s.finish_read(pending, 10), Polled::Pending);
    assert_eq!(s.get(StreamOp::Read), OpSlot::InFlight);
    // A pending read is resumed with the chunk it was given.
    assert_eq!(s.begin_read(4000), None);
    assert_eq!(s.read_chunk(), 10);
    let mut chunk = vec![0u8; 10];
    chunk[..3].copy_from_slice(&[7, 8, 9]);
    let done: Polled<Result<(Vec<u8>, usize), String>> = Polled::Ready(Ok((chunk, 3)));
    assert_eq!(s.finish_read(done, 10), Polled::Ready(Ok(vec![7, 8, 9])));
    assert_eq!(s.get(StreamOp::Read), OpSlot::Idle);
    assert_eq!(s.begin_read(5000), Some(1380));
    assert_eq!(s.read_chunk(), 1380);
}

#[test]
fn failed_or_pending_read_appends_nothing() {
    let mut s = StreamSlots::new();
    assert_eq!(s.begin_read(100), Some(100));
    let failed: Polled<Result<(Vec<u8>, usize), String>> = Polled::Ready(Err("reset".to_string()));
    assert_eq!(s.finish_read(failed, 100), Polled::Ready(Err("reset".to_string())));
    assert_eq!(s.get(StreamOp::Read), OpSlot::Spent);
}

#[test]
fn transfer_answer_is_the_socket_result() {
    let mut s = StreamSlots::new();
    assert!(s.begin_poll(StreamOp::Write));
    let p: Polled<Result<usize, String>> = Polled::Pending;
    assert_eq!(s.finish_transfer(StreamOp::Write, p), Polled::Pending);
    assert!(!s.begin_poll(StreamOp::Write));
    let r: Polled<Result<usize, String>> = Polled::Ready(Ok(1024));
    assert_eq!(s.finish_transfer(StreamOp::Write, r), Polled::Ready(Ok(1024)));
    assert_eq!(s.get(StreamOp::Write), OpSlot::Idle);

    assert!(s.begin_poll(StreamOp::Flush));
    let f: Polled<Result<(), String>> = Polled::Ready(Err("timeout".to_string()));
    assert_eq!(s.finish_transfer(StreamOp::Flush, f), Polled::Ready(Err("timeout".to_string())));
    assert_eq!(s.get(StreamOp::Flush), OpSlot::Idle);

    assert!(s.begin_poll(StreamOp::Write));
    let w: Polled<Result<usize, String>> = Polled::Ready(Err("closed".to_string()));
    assert_eq!(s.finish_transfer(StreamOp::Write, w), Polled::Ready(Err("closed".to_string())));
    assert_eq!(s.get(StreamOp::Write), OpSlot::Spent);
}

#[test]
fn shutdown_flushes() {
    assert_eq!(socket_call(StreamOp::Read), SocketCall::RecvFrom);
    assert_eq!(socket_call(StreamOp::Write), SocketCall::SendTo);
    assert_eq!(socket_call(StreamOp::Flush), SocketCall::Flush);
    assert_eq!(socket_call(StreamOp::Shutdown), SocketCall::Flush);
}

#[test]
fn new_slots_are_idle() {
    let s = StreamSlots::new();
    for op in ALL_OPS {
        assert_eq!(s.get(op), OpSlot::Idle);
    }
    let d = StreamSlots::default();
    for op in ALL_OPS {
        assert_eq!(d.get(op), OpSlot::Idle);
    }
}

#[test]
fn pending_operation_is_resumed_not_restarted() {
    for op in ALL_OPS {
        let mut s = StreamSlots::new();
        assert!(s.begin_poll(op));
        s.finish_poll(op, Polled::Pending);
        assert_eq!(s.get(op), OpSlot::InFlight);
        assert!(!s.begin_poll(op));
        s.finish_poll(op, Polled::Ready(Completion::Succeeded));
        assert_eq!(s.get(op), OpSlot::Idle);
        assert!(s.begin_poll(op));
    }
}

#[test]
fn failed_transfer_spends_slot() {
    let mut s = StreamSlots::new();
    assert!(s.begin_poll(StreamOp::Read));
    s.finish_poll(StreamOp::Read, Polled::Ready(Completion::Failed));
    assert_eq!(s.get(StreamOp::Read), OpSlot::Spent);

    assert!(s.begin_poll(StreamOp::Write));
    s.finish_poll(StreamOp::Write, Polled::Ready(Completion::Failed));
    assert_eq!(s.get(StreamOp::Write), OpSlot::Spent);

    assert!(s.begin_poll(StreamOp::Flush));
    s.finish_poll(StreamOp::Flush, Polled::Ready(Completion::Failed));
    assert_eq!(s.get(StreamOp::Flush), OpSlot::Idle);

    assert!(s.begin_poll(StreamOp::Shutdown));
    s.finish_poll(StreamOp::Shutdown, Polled::Ready(Completion::Failed));
    assert_eq!(s.get(StreamOp::Shutdown), OpSlot::Idle);
}

#[test]
fn polling_one_operation_leaves_the_others() {
    let mut s = StreamSlots::new();
    assert!(s.begin_poll(StreamOp::Write));
    assert_eq!(s.get(StreamOp::Write), OpSlot::InFlight);
    assert_eq!(s.get(StreamOp::Read), OpSlot::Idle);
    assert_eq!(s.get(StreamOp::Flush), OpSlot::Idle);
    assert_eq!(s.get(StreamOp::Shutdown), OpSlot::Idle);
    assert!(s.begin_poll(StreamOp::Read));
    s.finish_poll(StreamOp::Read, Polled::Ready(Completion::Failed));
    assert_eq!(s.get(StreamOp::Write), OpSlot::InFlight);
    assert_eq!(s.get(StreamOp::Read), OpSlot::Spent);
}
