//! The HTTP output streams queued messages to its clients. Each poll of the
//! stream looks at the queue once and decides what the stream does next.

use vstd::prelude::*;

verus! {

/// The pause, in nanoseconds, before a stream that found its queue empty
/// asks to be polled again.
pub const RETRY_NANOS: u32 = 1_000_000;

/// What one look at the queue found.
#[derive(Debug, PartialEq, Eq)]
pub enum QueuePoll {
    /// A queued message.
    Received(String),
    /// Nothing queued yet.
    Empty,
    /// Every sender is gone.
    Disconnected,
}

/// What the stream does after one look at the queue.
#[derive(Debug, PartialEq, Eq)]
pub enum StreamStep {
    /// Hand this chunk to the client.
    Yield(String),
    /// Not ready: wake the stream again after this many nanoseconds.
    RetryAfter(u32),
    /// The stream is over.
    Finish,
}

/// The stream's next step after one look at the queue.
pub open spec fn step_of(poll: QueuePoll) -> StreamStep {
    match poll {
        QueuePoll::Received(m) => StreamStep::Yield(m),
        QueuePoll::Empty => StreamStep::RetryAfter(RETRY_NANOS),
        QueuePoll::Disconnected => StreamStep::Finish,
    }
}

/// Decides the stream's next step: a queued message becomes the next chunk
/// unchanged, an empty queue asks to be polled again after `RETRY_NANOS`,
/// and a queue without senders ends the stream.
pub fn poll_step(poll: QueuePoll) -> (step: StreamStep)
    ensures
        match poll {
            QueuePoll::Received(m) => step matches StreamStep::Yield(chunk) && chunk@ == m@,
            QueuePoll::Empty => step == StreamStep::RetryAfter(RETRY_NANOS),
            QueuePoll::Disconnected => step == StreamStep::Finish,
        },
        step == step_of(poll),
{
    match poll {
        QueuePoll::Received(m) => StreamStep::Yield(m),
        QueuePoll::Empty => StreamStep::RetryAfter(RETRY_NANOS),
        QueuePoll::Disconnected => StreamStep::Finish,
    }
}

/// The texts of the messages that a series of looks at the queue received,
/// in order.
pub open spec fn received_texts(polls: Seq<QueuePoll>) -> Seq<Seq<char>>
    decreases polls.len(),
{
    if polls.len() == 0 {
        Seq::empty()
    } else {
        let rest = received_texts(polls.drop_last());
        match polls.last() {
            QueuePoll::Received(m) => rest.push(m@),
            _ => rest,
        }
    }
}

/// The texts of the chunks that a series of steps handed to the client, in
/// order.
pub open spec fn yielded_texts(steps: Seq<StreamStep>) -> Seq<Seq<char>>
    decreases steps.len(),
{
    if steps.len() == 0 {
        Seq::empty()
    } else {
        let rest = yielded_texts(steps.drop_last());
        match steps.last() {
            StreamStep::Yield(m) => rest.push(m@),
            _ => rest,
        }
    }
}

/// Over any series of polls, the client gets exactly the messages that the
/// queue gave, each once, unchanged and in the queue's order; the other
/// polls hand it nothing.
pub proof fn lemma_stream_yields_queue_in_order(polls: Seq<QueuePoll>)
    ensures
        yielded_texts(polls.map_values(|p: QueuePoll| step_of(p))) == received_texts(polls),
    decreases polls.len(),
{
    if polls.len() > 0 {
        let front = polls.drop_last();
        lemma_stream_yields_queue_in_order(front);
        assert(polls.map_values(|p: QueuePoll| step_of(p)).drop_last() =~= front.map_values(
            |p: QueuePoll| step_of(p),
        ));
    }
}

} // verus!
