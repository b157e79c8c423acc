//! What a WebSocket output does with each connected peer when it broadcasts
//! a message: it first reads from the peer, then writes the message, and the
//! peer stays connected only if both went through and it can still be
//! written to.

use vstd::prelude::*;

verus! {

/// What reading from a peer gave, before the message is written to it.
#[derive(Debug, Clone, Copy, PartialEq, Eq)]
pub enum ReadOutcome {
    /// The peer sent a close frame.
    Closed,
    /// The peer sent a message other than a close frame.
    Message,
    /// There was nothing to read (the socket would block).
    Idle,
    /// The connection was reset by the peer.
    ConnectionReset,
    /// The peer went away without the closing handshake.
    ResetWithoutClosingHandshake,
    /// Any other failure.
    Failed,
}

/// What writing the message to a peer gave.
#[derive(Debug, Clone, Copy, PartialEq, Eq)]
pub enum WriteOutcome {
    /// The message was written.
    Written,
    /// The connection was aborted.
    ConnectionAborted,
    /// The connection was reset by the peer.
    ConnectionReset,
    /// The write would block.
    WouldBlock,
    /// The peer went away without the closing handshake.
    ResetWithoutClosingHandshake,
    /// Any other failure.
    Failed,
}

/// Why a peer is dropped.
#[derive(Debug, Clone, Copy, PartialEq, Eq)]
pub enum DropCause {
    Closed,
    ConnectionReset,
    ResetWithoutClosingHandshake,
    ConnectionAborted,
    WriteWouldBlock,
}

/// The step after reading from a peer.
#[derive(Debug, Clone, Copy, PartialEq, Eq)]
pub enum AfterRead {
    /// Go on and write the message to the peer.
    Write,
    /// Drop the peer without writing.
    Drop(DropCause),
}

/// The step after writing to a peer.
#[derive(Debug, Clone, Copy, PartialEq, Eq)]
pub enum AfterWrite {
    /// Keep the peer exactly when it can still be written to.
    KeepIfWritable,
    /// Drop the peer.
    Drop(DropCause),
}

/// Read outcomes that a broadcast knows how to handle; on the others (a
/// message from the peer, an unknown failure) the relay stops.
pub open spec fn read_is_handled(read: ReadOutcome) -> bool {
    !(read is Message) && !(read is Failed)
}

/// Write outcomes that a broadcast knows how to handle.
pub open spec fn write_is_handled(write: WriteOutcome) -> bool {
    !(write is Failed)
}

pub open spec fn after_read_spec(read: ReadOutcome) -> AfterRead {
    match read {
        ReadOutcome::Idle => AfterRead::Write,
        ReadOutcome::Closed => AfterRead::Drop(DropCause::Closed),
        ReadOutcome::ConnectionReset => AfterRead::Drop(DropCause::ConnectionReset),
        _ => AfterRead::Drop(DropCause::ResetWithoutClosingHandshake),
    }
}

pub open spec fn after_write_spec(write: WriteOutcome) -> AfterWrite {
    match write {
        WriteOutcome::Written => AfterWrite::KeepIfWritable,
        WriteOutcome::ConnectionAborted => AfterWrite::Drop(DropCause::ConnectionAborted),
        WriteOutcome::ConnectionReset => AfterWrite::Drop(DropCause::ConnectionReset),
        WriteOutcome::WouldBlock => AfterWrite::Drop(DropCause::WriteWouldBlock),
        _ => AfterWrite::Drop(DropCause::ResetWithoutClosingHandshake),
    }
}

/// Decides what follows a read from a peer: write to it only when there was
/// nothing to read; a close frame or a broken connection drops it.
pub fn after_read(read: ReadOutcome) -> (step: AfterRead)
    requires
        read_is_handled(read),
    ensures
        step == after_read_spec(read),
{
    match read {
        ReadOutcome::Idle => AfterRead::Write,
        ReadOutcome::Closed => AfterRead::Drop(DropCause::Closed),
        ReadOutcome::ConnectionReset => AfterRead::Drop(DropCause::ConnectionReset),
        _ => AfterRead::Drop(DropCause::ResetWithoutClosingHandshake),
    }
}

/// Decides what follows a write to a peer: a written message keeps the peer
/// if it can still be written to; any handled failure drops it.
pub fn after_write(write: WriteOutcome) -> (step: AfterWrite)
    requires
        write_is_handled(write),
    ensures
        step == after_write_spec(write),
{
    match write {
        WriteOutcome::Written => AfterWrite::KeepIfWritable,
        WriteOutcome::ConnectionAborted => AfterWrite::Drop(DropCause::ConnectionAborted),
        WriteOutcome::ConnectionReset => AfterWrite::Drop(DropCause::ConnectionReset),
        WriteOutcome::WouldBlock => AfterWrite::Drop(DropCause::WriteWouldBlock),
        _ => AfterWrite::Drop(DropCause::ResetWithoutClosingHandshake),
    }
}

/// Whether a peer stays connected after a broadcast in which the read gave
/// `read`, the write (made only after a `Write` step) gave `write`, and the
/// writability check (made only after a `KeepIfWritable` step) gave
/// `writable`.
pub open spec fn stays_connected(read: ReadOutcome, write: WriteOutcome, writable: bool) -> bool {
    &&& after_read_spec(read) is Write
    &&& after_write_spec(write) is KeepIfWritable
    &&& writable
}

/// A peer stays connected after a broadcast exactly when there was nothing
/// to read from it, the message was written to it, and it can still be
/// written to.
pub proof fn lemma_peer_kept_iff_idle_and_written(read: ReadOutcome, write: WriteOutcome, writable: bool)
    requires
        read_is_handled(read),
        write_is_handled(write),
    ensures
        stays_connected(read, write, writable) <==> (read == ReadOutcome::Idle && write
            == WriteOutcome::Written && writable),
{
}

/// A peer that is dropped is dropped for exactly one cause, the one of the
/// step that dropped it: a close frame is never taken for a reset, and a
/// write that would block is told apart from one that failed.
pub proof fn lemma_drop_cause_follows_outcome(read: ReadOutcome, write: WriteOutcome)
    requires
        read_is_handled(read),
        write_is_handled(write),
    ensures
        (after_read_spec(read) == AfterRead::Drop(DropCause::Closed)) <==> read == ReadOutcome::Closed,
        (after_write_spec(write) == AfterWrite::Drop(DropCause::WriteWouldBlock)) <==> write
            == WriteOutcome::WouldBlock,
        (after_write_spec(write) == AfterWrite::Drop(DropCause::ConnectionAborted)) <==> write
            == WriteOutcome::ConnectionAborted,
{
}

/// The label by which a peer is named in notices: its address, or
/// `unknown address` when that is not known.
pub open spec fn peer_label_of(address: Option<Seq<char>>) -> Seq<char> {
    match address {
        Some(a) => a,
        None => "unknown address"@,
    }
}

/// Names a peer by its address, or `unknown address`.
pub fn peer_label(address: Option<String>) -> (label: String)
    ensures
        label@ == peer_label_of(
            match address {
                Some(a) => Some(a@),
                None => None,
            },
        ),
{
    match address {
        Some(a) => a,
        None => String::from_str("unknown address"),
    }
}

/// The notice written when a peer is dropped.
pub open spec fn drop_notice_of(cause: DropCause, peer: Seq<char>) -> Seq<char> {
    match cause {
        DropCause::Closed => "Socket closed: "@ + peer + "."@,
        DropCause::ConnectionReset => "Connection reset: "@ + peer + "."@,
        DropCause::ResetWithoutClosingHandshake => "Reset without closing handshake: "@ + peer
            + "."@,
        DropCause::ConnectionAborted => "Connection aborted: "@ + peer + "."@,
        DropCause::WriteWouldBlock => "Err: WouldBlock in socket.write_message"@,
    }
}

/// Writes the notice for a peer dropped for `cause`.
pub fn drop_notice(cause: DropCause, peer: &str) -> (notice: String)
    ensures
        notice@ == drop_notice_of(cause, peer@),
{
    let head = match cause {
        DropCause::Closed => "Socket closed: ",
        DropCause::ConnectionReset => "Connection reset: ",
        DropCause::ResetWithoutClosingHandshake => "Reset without closing handshake: ",
        DropCause::ConnectionAborted => "Connection aborted: ",
        DropCause::WriteWouldBlock => {
            return String::from_str("Err: WouldBlock in socket.write_message");
        },
    };
    String::from_str(head).concat(peer).concat(".")
}

/// The notice written when a peer connects to a WebSocket output.
pub open spec fn connected_notice_of(peer: Seq<char>) -> Seq<char> {
    "Connected: "@ + peer + "."@
}

/// Writes the notice for a peer that connected.
pub fn connected_notice(peer: &str) -> (notice: String)
    ensures
        notice@ == connected_notice_of(peer@),
{
    String::from_str("Connected: ").concat(peer).concat(".")
}

/// The positions of the peers that stay connected after a broadcast in which
/// the peer at position `i` had the read, write and writability outcomes
/// `rounds[i]`.
pub open spec fn kept_peers(rounds: Seq<(ReadOutcome, WriteOutcome, bool)>) -> Seq<int>
    decreases rounds.len(),
{
    if rounds.len() == 0 {
        Seq::empty()
    } else {
        let last = rounds.last();
        let rest = kept_peers(rounds.drop_last());
        if stays_connected(last.0, last.1, last.2) {
            rest.push(rounds.len() - 1)
        } else {
            rest
        }
    }
}

/// A broadcast keeps exactly the peers that stay connected, in their old
/// order: no peer is added, moved or repeated, and every peer that stays
/// connected is kept.
pub proof fn lemma_broadcast_keeps_connected_peers_in_order(rounds: Seq<(ReadOutcome, WriteOutcome, bool)>)
    ensures
        kept_peers(rounds).len() <= rounds.len(),
        forall|k: int|
            0 <= k < kept_peers(rounds).len() ==> {
                let i = #[trigger] kept_peers(rounds)[k];
                &&& 0 <= i < rounds.len()
                &&& stays_connected(rounds[i].0, rounds[i].1, rounds[i].2)
            },
        forall|k: int, l: int|
            0 <= k < l < kept_peers(rounds).len() ==> #[trigger] kept_peers(rounds)[k]
                < #[trigger] kept_peers(rounds)[l],
        forall|i: int|
            0 <= i < rounds.len() && stays_connected(
                #[trigger] rounds[i].0,
                rounds[i].1,
                rounds[i].2,
            ) ==> kept_peers(rounds).contains(i),
    decreases rounds.len(),
{
    if rounds.len() > 0 {
        let front = rounds.drop_last();
        lemma_broadcast_keeps_connected_peers_in_order(front);
        let rest = kept_peers(front);
        let kept = kept_peers(rounds);
        assert forall|k: int| 0 <= k < rest.len() implies #[trigger] rest[k] < rounds.len() - 1 by {
        }
        assert forall|i: int|
            0 <= i < rounds.len() && stays_connected(
                #[trigger] rounds[i].0,
                rounds[i].1,
                rounds[i].2,
            ) implies kept.contains(i) by {
            if i < rounds.len() - 1 {
                assert(front[i] == rounds[i]);
                let k = choose|k: int| 0 <= k < rest.len() && rest[k] == i;
                assert(kept[k] == i);
            } else {
                assert(kept[kept.len() - 1] == i);
            }
        }
        assert forall|k: int| 0 <= k < kept.len() implies {
            let i = #[trigger] kept[k];
            &&& 0 <= i < rounds.len()
            &&& stays_connected(rounds[i].0, rounds[i].1, rounds[i].2)
        } by {
            if k < rest.len() {
                assert(kept[k] == rest[k]);
                assert(front[rest[k]] == rounds[rest[k]]);
            }
        }
    }
}

} // verus!
