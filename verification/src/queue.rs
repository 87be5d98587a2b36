//! The command queue: the one channel from the controlling threads to the
//! playback thread, first-in first-out and non-blocking on both ends.

use vstd::prelude::*;

verus! {

/// A control message for the playback thread. Immutable once enqueued;
/// consumed exactly once.
#[derive(Debug, Clone, PartialEq, Eq)]
pub enum Command {
    /// Begin streaming the track at this path, superseding whatever is
    /// playing.
    Load(String),
    /// Relinquish the active session.
    Stop,
    /// Leave the playback loop so the thread can be joined at teardown.
    Shutdown,
}

#[verifier::external_type_specification]
#[verifier::external_body]
#[verifier::reject_recursive_types(T)]
pub struct ExSegQueue<T>(crossbeam::queue::SegQueue<T>);

/// The commands a queue holds, oldest first.
pub uninterp spec fn seg_queue_commands(q: &crossbeam::queue::SegQueue<Command>) -> Seq<Command>;

/// The engine's command queue, first-in first-out.
pub struct CommandQueue {
    /// The underlying lock-free queue.
    pub inner: crossbeam::queue::SegQueue<Command>,
}

impl View for CommandQueue {
    type V = Seq<Command>;

    open spec fn view(&self) -> Seq<Command> {
        seg_queue_commands(&self.inner)
    }
}

impl CommandQueue {
    /// Relies on `crossbeam::queue::SegQueue::new`: a fresh queue is empty.
    #[verifier::external_body]
    pub fn new() -> (q: CommandQueue)
        ensures
            seg_queue_commands(&q.inner) == Seq::<Command>::empty(),
    {
        CommandQueue { inner: crossbeam::queue::SegQueue::new() }
    }

    /// Relies on `crossbeam::queue::SegQueue::push`: the element joins the
    /// tail of the queue. Never blocks and always succeeds.
    #[verifier::external_body]
    pub fn push(&mut self, command: Command)
        ensures
            seg_queue_commands(&final(self).inner) == seg_queue_commands(&old(self).inner).push(
                command,
            ),
    {
        self.inner.push(command);
    }

    /// Relies on `crossbeam::queue::SegQueue::pop`: the head of the queue
    /// comes off, or `None` at once when the queue is empty. Never blocks.
    #[verifier::external_body]
    pub fn try_pop(&mut self) -> (r: Option<Command>)
        ensures
            old(self)@.len() == 0 ==> r is None && seg_queue_commands(&final(self).inner) == old(
                self,
            )@,
            old(self)@.len() > 0 ==> r == Some(old(self)@.first()) && seg_queue_commands(
                &final(self).inner,
            ) == old(self)@.drop_first(),
    {
        self.inner.pop()
    }
}

} // verus!
