use relay::socket::{
    after_read, after_write, connected_notice, drop_notice, peer_label, AfterRead, AfterWrite,
    DropCause, ReadOutcome, WriteOutcome,
};
use relay::stream::{poll_step, QueuePoll, StreamStep, RETRY_NANOS};

#[test]
fn idle_read_goes_on_to_write() {
    assert_eq!(after_read(ReadOutcome::Idle), AfterRead::Write);
}

#[test]
fn close_frame_drops_peer() {
    assert_eq!(after_read(ReadOutcome::Closed), AfterRead::Drop(DropCause::Closed));
}

#[test]
fn broken_reads_drop_peer() {
    assert_eq!(after_read(ReadOutcome::ConnectionReset), AfterRead::Drop(DropCause::ConnectionReset));
    assert_eq!(
        after_read(ReadOutcome::ResetWithoutClosingHandshake),
        AfterRead::Drop(DropCause::ResetWithoutClosingHandshake)
    );
}

#[test]
fn written_message_keeps_writable_peer() {
    assert_eq!(after_write(WriteOutcome::Written), AfterWrite::KeepIfWritable);
}

#[test]
fn failed_writes_drop_peer() {
    assert_eq!(after_write(WriteOutcome::ConnectionAborted), AfterWrite::Drop(DropCause::ConnectionAborted));
    assert_eq!(after_write(WriteOutcome::ConnectionReset), AfterWrite::Drop(DropCause::ConnectionReset));
    assert_eq!(after_write(WriteOutcome::WouldBlock), AfterWrite::Drop(DropCause::WriteWouldBlock));
    assert_eq!(
        after_write(WriteOutcome::ResetWithoutClosingHandshake),
        AfterWrite::Drop(DropCause::ResetWithoutClosingHandshake)
    );
}

#[test]
fn peer_stays_only_after_idle_read_and_write() {
    let reads = [
        ReadOutcome::Closed,
        ReadOutcome::Idle,
        ReadOutcome::ConnectionReset,
        ReadOutcome::ResetWithoutClosingHandshake,
    ];
    let writes = [
        WriteOutcome::Written,
        WriteOutcome::ConnectionAborted,
        WriteOutcome::ConnectionReset,
        WriteOutcome::WouldBlock,
        WriteOutcome::ResetWithoutClosingHandshake,
    ];
    for r in reads {
        for w in writes {
            let kept = after_read(r) == AfterRead::Write && after_write(w) == AfterWrite::KeepIfWritable;
            assert_eq!(kept, r == ReadOutcome::Idle && w == WriteOutcome::Written);
        }
    }
}

#[test]
fn drop_notices_name_the_peer() {
    assert_eq!(drop_notice(DropCause::Closed, "1.2.3.4:5"), "Socket closed: 1.2.3.4:5.");
    assert_eq!(drop_notice(DropCause::ConnectionReset, "p"), "Connection reset: p.");
    assert_eq!(
        drop_notice(DropCause::ResetWithoutClosingHandshake, "p"),
        "Reset without closing handshake: p."
    );
    assert_eq!(drop_notice(DropCause::ConnectionAborted, "p"), "Connection aborted: p.");
    assert_eq!(drop_notice(DropCause::WriteWouldBlock, "p"), "Err: WouldBlock in socket.write_message");
}

#[test]
fn connected_notice_names_the_peer() {
    assert_eq!(connected_notice("10.0.0.1:4000"), "Connected: 10.0.0.1:4000.");
}

#[test]
fn peer_label_defaults_to_unknown_address() {
    assert_eq!(peer_label(Some("127.0.0.1:1".to_string())), "127.0.0.1:1");
    assert_eq!(peer_label(None), "unknown address");
}

#[test]
fn queued_message_is_yielded_unchanged() {
    assert_eq!(poll_step(QueuePoll::Received("hi\n".to_string())), StreamStep::Yield("hi\n".to_string()));
}

#[test]
fn empty_queue_retries_after_a_millisecond() {
    assert_eq!(poll_step(QueuePoll::Empty), StreamStep::RetryAfter(1_000_000));
    assert_eq!(RETRY_NANOS, 1_000_000);
}

#[test]
fn disconnected_queue_finishes_stream() {
    assert_eq!(poll_step(QueuePoll::Disconnected), StreamStep::Finish);
}

#[test]
fn stream_yields_queued_messages_in_order() {
    let polls = vec![
        QueuePoll::Received("a".to_string()),
        QueuePoll::Empty,
        QueuePoll::Received("b".to_string()),
        QueuePoll::Received("c".to_string()),
        QueuePoll::Disconnected,
    ];
    let yielded: Vec<String> = polls
        .into_iter()
        .filter_map(|p| match poll_step(p) {
            StreamStep::Yield(chunk) => Some(chunk),
            _ => None,
        })
        .collect();
    assert_eq!(yielded, vec!["a".to_string(), "b".to_string(), "c".to_string()]);
}

#[test]
fn broadcast_keeps_connected_peers_in_order() {
    let rounds = [
        (ReadOutcome::Idle, WriteOutcome::Written, true),
        (ReadOutcome::Closed, WriteOutcome::Written, true),
        (ReadOutcome::Idle, WriteOutcome::WouldBlock, true),
        (ReadOutcome::Idle, WriteOutcome::Written, false),
        (ReadOutcome::Idle, WriteOutcome::Written, true),
    ];
    let mut peers = vec![0, 1, 2, 3, 4];
    let mut i = 0;
    peers.retain(|_| {
        let (r, w, writable) = rounds[i];
        i += 1;
        after_read(r) == AfterRead::Write && after_write(w) == AfterWrite::KeepIfWritable && writable
    });
    assert_eq!(peers, vec![0, 4]);
}
