//! The bounded multi-producer/single-consumer channel that carries one-shot
//! closures from any thread into the real-time audio thread, together with
//! the capability handle those closures receive when they run.
//!
//! The channel itself is `crossbeam_channel`'s bounded queue. Its state is
//! shared between the enqueuing threads and the draining thread, so no
//! contract here can pin the queue's contents down as a function of one
//! endpoint: the trusted wrappers only classify each call's outcome, and the
//! code around them states what holds whatever came back.

use vstd::prelude::*;

verus! {

/// Capability handle that stands for "this code runs on the real-time audio
/// thread". Handed to every task the real-time adapter executes.
#[derive(Debug)]
pub struct RealTimeReaper {}

/// A one-shot unit of work scheduled for the real-time audio thread.
///
/// The closure inside is user code: nothing is or can be known about what it
/// does, so the wrapped value is opaque.
#[verifier::external_body]
pub struct RtTask {
    op: Box<dyn FnOnce(&RealTimeReaper) + Send + 'static>,
}

impl RtTask {
    /// Relies on `Box::new` alone: boxes the closure without calling it.
    #[verifier::external_body]
    pub fn new<F: FnOnce(&RealTimeReaper) + Send + 'static>(op: F) -> (r: RtTask) {
        RtTask { op: Box::new(op) }
    }

    /// Runs the closure once, consuming the task. The closure is user code;
    /// nothing is known about its effect.
    #[verifier::external_body]
    pub fn run(self, reaper: &RealTimeReaper) {
        (self.op)(reaper)
    }
}

/// Why an attempted enqueue did not take the task.
#[derive(Copy, Clone, Eq, PartialEq, Debug, Structural)]
pub enum TaskChannelError {
    /// The channel already holds as many tasks as its capacity allows.
    Full,
    /// The receiving side is gone.
    Disconnected,
}

impl TaskChannelError {
    /// A human-readable account of the failure.
    pub fn message(&self) -> (r: &'static str)
        ensures
            r@ == match *self {
                TaskChannelError::Full => "audio thread task channel is full"@,
                TaskChannelError::Disconnected => "channel was disconnected"@,
            },
    {
        match self {
            TaskChannelError::Full => "audio thread task channel is full",
            TaskChannelError::Disconnected => "channel was disconnected",
        }
    }
}

/// What one non-blocking pull from the channel produced.
pub enum TryRecvOutcome {
    /// The oldest queued task.
    Task(RtTask),
    /// The channel held no task at the moment of the call.
    Empty,
    /// The channel is empty and every sender is gone.
    Disconnected,
}

/// Declares `crossbeam_channel::Sender` so the enqueue side of the channel
/// can stand in fields and signatures; the value is opaque.
#[verifier::external_type_specification]
#[verifier::external_body]
#[verifier::reject_recursive_types(T)]
pub struct ExSender<T>(crossbeam_channel::Sender<T>);

/// Declares `crossbeam_channel::Receiver` so the drain side of the channel
/// can stand in fields and signatures; the value is opaque.
#[verifier::external_type_specification]
#[verifier::external_body]
#[verifier::reject_recursive_types(T)]
pub struct ExReceiver<T>(crossbeam_channel::Receiver<T>);

/// Relies on `crossbeam_channel::bounded`: builds a bounded channel whose
/// queue holds at most `cap` messages. `bounded` panics only when the
/// capacity is too large to represent — its index arithmetic needs
/// `2 * next_power_of_two(cap + 1)` to fit the platform's index word,
/// which the bound below guarantees even for a 32-bit one.
#[verifier::external_body]
pub fn bounded_task_channel(cap: usize) -> (r: (
    crossbeam_channel::Sender<RtTask>,
    crossbeam_channel::Receiver<RtTask>,
))
    requires
        0 < cap < 0x2000_0000,
{
    crossbeam_channel::bounded(cap)
}

/// Relies on `crossbeam_channel::Sender::try_send`: places the task at the
/// back of the queue and returns `Ok`, or returns it inside
/// `TrySendError::Full` when the queue is at capacity, or inside
/// `TrySendError::Disconnected` when the receiver is gone; it never blocks.
/// The queue is shared with other threads, so which of the three happens
/// cannot be pinned here; the task is dropped on failure either way.
#[verifier::external_body]
pub fn try_send_task(sender: &crossbeam_channel::Sender<RtTask>, task: RtTask) -> (r: Result<
    (),
    TaskChannelError,
>) {
    match sender.try_send(task) {
        Ok(()) => Ok(()),
        Err(crossbeam_channel::TrySendError::Full(_)) => Err(TaskChannelError::Full),
        Err(crossbeam_channel::TrySendError::Disconnected(_)) => Err(
            TaskChannelError::Disconnected,
        ),
    }
}

/// Relies on `crossbeam_channel::Receiver::try_recv`: takes the task at the
/// front of the queue if one is there, and never blocks. The queue is shared
/// with other threads, so the outcome cannot be pinned here.
#[verifier::external_body]
pub fn try_recv_task(receiver: &crossbeam_channel::Receiver<RtTask>) -> (r: TryRecvOutcome) {
    match receiver.try_recv() {
        Ok(task) => TryRecvOutcome::Task(task),
        Err(crossbeam_channel::TryRecvError::Empty) => TryRecvOutcome::Empty,
        Err(crossbeam_channel::TryRecvError::Disconnected) => TryRecvOutcome::Disconnected,
    }
}

/// Relies on `crossbeam_channel::Receiver::len`: the number of tasks queued
/// at the moment of the call. Other threads may change it right after, so
/// nothing relates it to any later call.
#[verifier::external_body]
pub fn task_receiver_len(receiver: &crossbeam_channel::Receiver<RtTask>) -> (r: usize) {
    receiver.len()
}

} // verus!
