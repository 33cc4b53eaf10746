//! The two sides of the session: the parked real-time audio adapter while
//! sleeping, and the host registration handles while awake.

use vstd::prelude::*;
use crate::task_channel::{
    try_recv_task, task_receiver_len, RealTimeReaper, TryRecvOutcome,
};

verus! {

/// The host's opaque receipt for one registered accelerator-table entry,
/// carried as a plain number.
#[derive(Copy, Clone, Eq, PartialEq, Hash, Debug, Structural)]
pub struct GaccelHandle(pub usize);

/// The host's opaque receipt for the registered audio-hardware hook,
/// carried as a plain number.
#[derive(Copy, Clone, Eq, PartialEq, Hash, Debug, Structural)]
pub struct AudioHookHandle(pub usize);

/// What the host tells the audio hook about the block it is processing.
#[derive(Copy, Clone, Eq, PartialEq, Debug, Structural)]
pub struct OnAudioBufferArgs {
    /// True on the invocation after the block was processed; tasks are
    /// drained only on the invocation before.
    pub is_post: bool,
    /// Number of frames in the block.
    pub len: u32,
}

/// The object registered with the host's per-audio-block callback. Each
/// pre-processing invocation drains at most one queued task and executes it
/// with the real-time capability handle.
#[derive(Debug)]
pub struct HighOnAudioBuffer {
    task_receiver: crossbeam_channel::Receiver<crate::task_channel::RtTask>,
    reaper: RealTimeReaper,
}

impl HighOnAudioBuffer {
    /// Builds the adapter around the receiving end of the task channel.
    pub fn new(task_receiver: crossbeam_channel::Receiver<crate::task_channel::RtTask>) -> (r:
        Self)
    {
        HighOnAudioBuffer { task_receiver, reaper: RealTimeReaper {} }
    }

    /// Discards every task still queued, without executing any, and reports
    /// how many were discarded. Used when the session reactivates: tasks
    /// that accumulated while dormant were scheduled against host state
    /// that no longer matches the moment of execution.
    pub fn reset(&self) -> (discarded: usize) {
        self.discard_tasks()
    }

    /// Pulls queued tasks one by one and drops each unexecuted, up to the
    /// queue length seen at the start; returns how many were dropped.
    fn discard_tasks(&self) -> (discarded: usize) {
        let pending: usize = task_receiver_len(&self.task_receiver);
        let mut discarded: usize = 0;
        while discarded < pending
            invariant
                discarded <= pending,
            decreases pending - discarded,
        {
            match try_recv_task(&self.task_receiver) {
                TryRecvOutcome::Task(task) => {
                    // Dropping the task here is the point: it must not run.
                    let _ = task;
                    discarded = discarded + 1;
                },
                TryRecvOutcome::Empty => {
                    return discarded;
                },
                TryRecvOutcome::Disconnected => {
                    return discarded;
                },
            }
        }
        discarded
    }

    /// One audio-block callback. Post-processing invocations are ignored;
    /// a pre-processing invocation takes at most one queued task and runs
    /// it with the real-time capability handle, which caps the added
    /// latency per audio block. The adapter itself is unchanged; only the
    /// shared queue behind its receiver, which no contract here can model,
    /// loses the task that ran.
    pub fn call(&mut self, args: OnAudioBufferArgs)
        ensures
            *final(self) == *old(self),
    {
        if args.is_post {
            return ;
        }
        match try_recv_task(&self.task_receiver) {
            TryRecvOutcome::Task(task) => {
                task.run(&self.reaper);
            },
            TryRecvOutcome::Empty => {},
            TryRecvOutcome::Disconnected => {},
        }
    }
}

/// What the session owns while sleeping: the parked audio adapter, waiting
/// to be handed to the host on the next wake-up.
pub struct SleepingState {
    pub audio_hook: Box<HighOnAudioBuffer>,
}

/// What the session owns while awake: the host's receipt for the audio
/// hook, and one receipt per accelerator-table entry, keyed by command id.
///
/// The key list never holds a command id twice; the newest receipt for an
/// id replaces the older one.
pub struct AwakeState {
    pub audio_hook_register_handle: AudioHookHandle,
    pub gaccel_registers: Vec<(u32, GaccelHandle)>,
}

impl AwakeState {
    /// The recorded accelerator receipts, oldest first.
    pub open spec fn gaccels(self) -> Seq<(u32, GaccelHandle)> {
        self.gaccel_registers@
    }

    /// No command id occurs twice among the receipts.
    pub open spec fn gaccels_unique(self) -> bool {
        forall|i: int, j: int|
            0 <= i < j < self.gaccels().len() ==> (#[trigger] self.gaccels()[i]).0 != (
            #[trigger] self.gaccels()[j]).0
    }
}

/// The session's two states. The adapter object exists in exactly one
/// place at a time: parked in the sleeping state, or handed out to the host
/// while the `Sleeping(None)` gap lasts and the awake state thereafter.
pub enum SessionStatus {
    /// Dormant. `None` means a wake-up took the adapter out and never
    /// completed; the session can then neither wake nor sleep.
    Sleeping(Option<SleepingState>),
    /// Live host registrations are held.
    Awake(AwakeState),
}

} // verus!
