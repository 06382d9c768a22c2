//! The writer task: drains the outbound frame queue onto the security-wrapped
//! stream, one frame at a time, each fully written and flushed before the next.

use vstd::prelude::*;

verus! {

/// Where the writer task stands.
#[derive(Debug, Clone, Copy, PartialEq, Eq, Structural)]
pub enum WriterState {
    /// Waiting for the next frame of the queue.
    Idle,
    /// A frame is being written.
    Writing,
    /// The written frame is being flushed.
    Flushing,
    /// The queue was closed; the task ended gracefully.
    Ended,
    /// A write or a flush failed; the task ended.
    Failed,
}

/// What happened since the writer's last action.
#[derive(Debug, PartialEq, Eq)]
pub enum WriterEvent {
    /// The queue handed out a frame, or ended.
    Dequeued(Option<Vec<u8>>),
    /// The write finished; on failure, with the stream's description.
    Written(Result<(), String>),
    /// The flush finished; on failure, with the stream's description.
    Flushed(Result<(), String>),
}

/// What the writer does next.
#[derive(Debug, PartialEq, Eq)]
pub enum WriterAction {
    /// Wait for the next frame of the queue.
    Dequeue,
    /// Write all of the frame.
    Write(Vec<u8>),
    /// Flush the stream.
    Flush,
    /// Stop; the queue is closed.
    Stop,
    /// Stop; the text says what failed.
    Fail(WriterFault),
    /// The event does not belong to the state; stay as before.
    Unexpected,
}

/// A fault of the writer task, with the stream's description.
#[derive(Debug, PartialEq, Eq)]
pub enum WriterFault {
    Write(String),
    Flush(String),
}

/// The state after an event, and the action to take.
pub open spec fn writer_step(state: WriterState, event: WriterEvent) -> (WriterState, WriterAction) {
    match (state, event) {
        (WriterState::Idle, WriterEvent::Dequeued(Some(frame))) => (
            WriterState::Writing,
            WriterAction::Write(frame),
        ),
        (WriterState::Idle, WriterEvent::Dequeued(None)) => (WriterState::Ended, WriterAction::Stop),
        (WriterState::Writing, WriterEvent::Written(Ok(_))) => (
            WriterState::Flushing,
            WriterAction::Flush,
        ),
        (WriterState::Writing, WriterEvent::Written(Err(detail))) => (
            WriterState::Failed,
            WriterAction::Fail(WriterFault::Write(detail)),
        ),
        (WriterState::Flushing, WriterEvent::Flushed(Ok(_))) => (
            WriterState::Idle,
            WriterAction::Dequeue,
        ),
        (WriterState::Flushing, WriterEvent::Flushed(Err(detail))) => (
            WriterState::Failed,
            WriterAction::Fail(WriterFault::Flush(detail)),
        ),
        _ => (state, WriterAction::Unexpected),
    }
}

/// The writer task's decisions. The task starts idle and asks for a frame.
#[derive(Debug, PartialEq, Eq)]
pub struct WriterTask {
    state: WriterState,
}

impl View for WriterTask {
    type V = WriterState;

    closed spec fn view(&self) -> WriterState {
        self.state
    }
}

impl WriterTask {
    /// A writer that waits for its first frame.
    pub fn new() -> (task: WriterTask)
        ensures
            task@ == WriterState::Idle,
    {
        WriterTask { state: WriterState::Idle }
    }

    /// Where the task stands.
    pub fn state(&self) -> (state: WriterState)
        ensures
            state == self@,
    {
        self.state
    }

    /// Takes what happened and says what to do next: a dequeued frame is
    /// written, a written frame is flushed, and only after the flush is the next
    /// frame asked for. The end of the queue stops the task; a failed write or
    /// flush stops it with the fault.
    pub fn step(&mut self, event: WriterEvent) -> (action: WriterAction)
        ensures
            final(self)@ == writer_step(old(self)@, event).0,
            action == writer_step(old(self)@, event).1,
    {
        match self.state {
            WriterState::Idle => match event {
                WriterEvent::Dequeued(Some(frame)) => {
                    self.state = WriterState::Writing;
                    WriterAction::Write(frame)
                },
                WriterEvent::Dequeued(None) => {
                    self.state = WriterState::Ended;
                    WriterAction::Stop
                },
                _ => WriterAction::Unexpected,
            },
            WriterState::Writing => match event {
                WriterEvent::Written(Ok(_)) => {
                    self.state = WriterState::Flushing;
                    WriterAction::Flush
                },
                WriterEvent::Written(Err(detail)) => {
                    self.state = WriterState::Failed;
                    WriterAction::Fail(WriterFault::Write(detail))
                },
                _ => WriterAction::Unexpected,
            },
            WriterState::Flushing => match event {
                WriterEvent::Flushed(Ok(_)) => {
                    self.state = WriterState::Idle;
                    WriterAction::Dequeue
                },
                WriterEvent::Flushed(Err(detail)) => {
                    self.state = WriterState::Failed;
                    WriterAction::Fail(WriterFault::Flush(detail))
                },
                _ => WriterAction::Unexpected,
            },
            _ => WriterAction::Unexpected,
        }
    }
}

/// The frames written by a writer that is fed a queue and a stream that never
/// fails: all of them, in queue order.
pub open spec fn frames_written(state: WriterState, queue: Seq<Vec<u8>>) -> Seq<Vec<u8>>
    decreases queue.len(),
{
    if queue.len() == 0 || state != WriterState::Idle {
        Seq::<Vec<u8>>::empty()
    } else {
        let written = writer_step(state, WriterEvent::Dequeued(Some(queue[0])));
        let flushing = writer_step(written.0, WriterEvent::Written(Ok(())));
        let idle = writer_step(flushing.0, WriterEvent::Flushed(Ok(())));
        seq![written.1->Write_0] + frames_written(idle.0, queue.drop_first())
    }
}

/// Outbound frames are written in the order they were queued, each flushed
/// before the next is taken: over a stream that does not fail, an idle writer
/// writes exactly the queue.
pub proof fn lemma_writer_preserves_order(queue: Seq<Vec<u8>>)
    ensures
        frames_written(WriterState::Idle, queue) == queue,
    decreases queue.len(),
{
    if queue.len() > 0 {
        lemma_writer_preserves_order(queue.drop_first());
    }
}

} // verus!
