//! The façade over the host's extension API: the session state machine, the
//! action registry, the undo-block coordinator and the enqueue side of the
//! real-time task channel.
//!
//! Host calls themselves (registering hooks and accelerator entries,
//! beginning and ending undo blocks) happen outside this crate. Each
//! operation here makes the decision and does the bookkeeping, and hands the
//! caller what the host needs: a wake-up returns the adapter to register and
//! the accelerator entries to create, a sleep query returns the handles to
//! release, the undo operations report whether a host begin or end call is
//! owed. The caller feeds the host's receipts back in to complete a
//! transition.

use vstd::prelude::*;
use std::collections::HashMap;
use crate::command::{ActionKind, Command, CommandId, RegisteredAction, SharedOperation};
use crate::session::{
    AudioHookHandle, AwakeState, GaccelHandle, HighOnAudioBuffer, SessionStatus, SleepingState,
};
use crate::task_channel::{bounded_task_channel, try_send_task, RealTimeReaper, RtTask, TaskChannelError};

verus! {

broadcast use vstd::std_specs::hash::group_hash_axioms;

/// Capacity of the channel which is used to schedule tasks for execution in
/// the real-time audio thread.
pub const AUDIO_THREAD_TASK_CHANNEL_CAPACITY: usize = 500;

/// Why a façade operation refused to act.
#[derive(Copy, Clone, Eq, PartialEq, Debug, Structural)]
pub enum ReaperError {
    /// A wake-up was asked for while the session is already awake.
    AlreadyAwake,
    /// A wake-up was asked for but an earlier wake-up took the parked
    /// adapter out and never completed, so the session has no adapter left
    /// to register.
    InvalidSleepingState,
    /// A sleep was asked for while the session is already sleeping.
    AlreadySleeping,
    /// A wake-up completion arrived without a wake-up under way.
    NoWakeUpInProgress,
}

impl ReaperError {
    /// A human-readable account of the refusal.
    pub fn message(&self) -> (r: &'static str)
        ensures
            r@ == match *self {
                ReaperError::AlreadyAwake => "Session is already awake"@,
                ReaperError::InvalidSleepingState => "Previous wake-up left session in invalid state"@,
                ReaperError::AlreadySleeping => "Session is already sleeping"@,
                ReaperError::NoWakeUpInProgress => "No wake-up is in progress"@,
            },
    {
        match self {
            ReaperError::AlreadyAwake => "Session is already awake",
            ReaperError::InvalidSleepingState => "Previous wake-up left session in invalid state",
            ReaperError::AlreadySleeping => "Session is already sleeping",
            ReaperError::NoWakeUpInProgress => "No wake-up is in progress",
        }
    }
}

/// The last observed continuous value change for a command: how the control
/// surface moved, as the host reported it.
#[derive(Copy, Clone, Eq, PartialEq, Debug, Structural)]
pub enum ActionValueChange {
    /// An absolute value with 7-bit resolution.
    AbsoluteLowRes(u8),
    /// An absolute value with 14-bit resolution.
    AbsoluteHighRes(u16),
    /// A relative change, first encoding.
    Relative1(u8),
    /// A relative change, second encoding.
    Relative2(u8),
    /// A relative change, third encoding.
    Relative3(u8),
}

/// Which action section a host callback speaks about. Only events of the
/// main section are recorded.
#[derive(Copy, Clone, Eq, PartialEq, Debug, Structural)]
pub enum SectionContext {
    /// The host's main action section.
    MainSection,
    /// Any other section.
    OtherSection,
}

/// The answer a toggle-state query hands back to the host.
#[derive(Copy, Clone, Eq, PartialEq, Debug, Structural)]
pub enum ToggleActionResult {
    /// The action has an on/off state and is currently on.
    On,
    /// The action has an on/off state and is currently off.
    Off,
    /// The command is unknown here, or not a toggle.
    NotRelevant,
}

/// The session's position in the wake/sleep cycle, as the contracts see it.
#[derive(Copy, Clone, Eq, PartialEq, Debug, Structural)]
pub enum SessionPhase {
    /// Sleeping with the audio adapter parked: ready to wake.
    SleepingReady,
    /// A wake-up took the adapter out and has not completed.
    WakeTransit,
    /// Awake: host registrations are held.
    Awake,
}

/// One accelerator-table entry the host must be given on wake-up.
#[derive(Debug)]
pub struct AccelEntry {
    /// The command the entry stands for.
    pub command_id: CommandId,
    /// The description shown to the host.
    pub description: String,
}

/// What a begun wake-up hands the caller: the adapter to register with the
/// host, the count of stale tasks that were discarded, and the accelerator
/// entries to create, in registration order.
#[derive(Debug)]
pub struct WakeUpPlan {
    /// The parked audio adapter, now owed to the host's audio-hook
    /// registration.
    pub audio_hook: Box<HighOnAudioBuffer>,
    /// How many tasks had accumulated while dormant and were dropped
    /// without running.
    pub discarded_task_count: usize,
    /// One entry per registered action, oldest registration first.
    pub accel_entries: Vec<AccelEntry>,
}

/// What a sleep query hands the caller: every host receipt that must be
/// released, the audio hook's first.
#[derive(Debug)]
pub struct SleepPlan {
    /// The receipt of the audio-hook registration; releasing it recovers
    /// the adapter.
    pub audio_hook_register_handle: AudioHookHandle,
    /// The receipts of the accelerator entries, in recording order.
    pub gaccel_handles: Vec<GaccelHandle>,
}

/// The phase a wake-up leaves the session in: from ready it takes the
/// adapter out; from anywhere else it changes nothing.
pub open spec fn spec_wake_up_phase(p: SessionPhase) -> SessionPhase {
    if p == SessionPhase::SleepingReady {
        SessionPhase::WakeTransit
    } else {
        p
    }
}

/// Whether a wake-up succeeds in phase `p`.
pub open spec fn spec_wake_up_ok(p: SessionPhase) -> bool {
    p == SessionPhase::SleepingReady
}

/// The phase a wake-up completion leaves the session in.
pub open spec fn spec_complete_wake_up_phase(p: SessionPhase) -> SessionPhase {
    if p == SessionPhase::WakeTransit {
        SessionPhase::Awake
    } else {
        p
    }
}

/// Whether a wake-up completion succeeds in phase `p`.
pub open spec fn spec_complete_wake_up_ok(p: SessionPhase) -> bool {
    p == SessionPhase::WakeTransit
}

/// The phase a sleep completion leaves the session in.
pub open spec fn spec_complete_go_to_sleep_phase(p: SessionPhase) -> SessionPhase {
    if p == SessionPhase::Awake {
        SessionPhase::SleepingReady
    } else {
        p
    }
}

/// Whether a sleep (query or completion) succeeds in phase `p`.
pub open spec fn spec_go_to_sleep_ok(p: SessionPhase) -> bool {
    p == SessionPhase::Awake
}

/// The one process-wide instance of the extension façade. All state here is
/// owned by the main thread; only the task channel's enqueue side may be
/// used from other threads.
pub struct Reaper {
    command_by_id: HashMap<u32, Command>,
    registration_order: Vec<u32>,
    action_value_change_history: HashMap<u32, ActionValueChange>,
    undo_block_is_active: bool,
    audio_thread_task_sender: crossbeam_channel::Sender<RtTask>,
    session_status: SessionStatus,
}

impl Reaper {
    /// The action registry: each registered command id and its entry.
    pub closed spec fn commands(self) -> Map<u32, Command> {
        self.command_by_id@
    }

    /// The ids of the registered actions, oldest registration first.
    pub closed spec fn registration_order(self) -> Seq<u32> {
        self.registration_order@
    }

    /// The last recorded value change per command id.
    pub closed spec fn value_change_history(self) -> Map<u32, ActionValueChange> {
        self.action_value_change_history@
    }

    /// Whether an undo block is currently open.
    pub closed spec fn undo_block_active(self) -> bool {
        self.undo_block_is_active
    }

    /// The session's position in the wake/sleep cycle.
    pub closed spec fn phase(self) -> SessionPhase {
        match self.session_status {
            SessionStatus::Sleeping(Some(_)) => SessionPhase::SleepingReady,
            SessionStatus::Sleeping(None) => SessionPhase::WakeTransit,
            SessionStatus::Awake(_) => SessionPhase::Awake,
        }
    }

    /// Whether the session is awake.
    pub open spec fn is_awake(self) -> bool {
        self.phase() == SessionPhase::Awake
    }

    /// The parked audio adapter, while the session is ready to wake.
    pub closed spec fn parked_audio_hook(self) -> Option<Box<HighOnAudioBuffer>> {
        match self.session_status {
            SessionStatus::Sleeping(Some(s)) => Some(s.audio_hook),
            _ => None,
        }
    }

    /// The host's receipt for the audio hook, while awake.
    pub closed spec fn awake_audio_handle(self) -> Option<AudioHookHandle> {
        match self.session_status {
            SessionStatus::Awake(a) => Some(a.audio_hook_register_handle),
            _ => None,
        }
    }

    /// The recorded accelerator receipts, while awake; empty otherwise.
    pub closed spec fn awake_gaccels(self) -> Seq<(u32, GaccelHandle)> {
        match self.session_status {
            SessionStatus::Awake(a) => a.gaccel_registers@,
            _ => Seq::empty(),
        }
    }

    /// Internal consistency: the registration order lists exactly the
    /// registered ids, each once, and no accelerator receipt's id occurs
    /// twice.
    pub closed spec fn wf(self) -> bool {
        &&& self.registration_order@.no_duplicates()
        &&& (forall|i: int|
            0 <= i < self.registration_order@.len() ==> self.command_by_id@.contains_key(
                #[trigger] self.registration_order@[i],
            ))
        &&& (forall|k: u32|
            #[trigger] self.command_by_id@.contains_key(k) ==> self.registration_order@.contains(
                k,
            ))
        &&& match self.session_status {
            SessionStatus::Awake(a) => a.gaccels_unique(),
            _ => true,
        }
    }

    /// Creates the façade: an empty registry and history, no undo block
    /// open, and a dormant session whose parked adapter holds the receiving
    /// end of a fresh bounded task channel.
    pub fn new() -> (r: Reaper)
        ensures
            r.wf(),
            r.phase() == SessionPhase::SleepingReady,
            r.commands() == Map::<u32, Command>::empty(),
            r.registration_order() == Seq::<u32>::empty(),
            r.value_change_history() == Map::<u32, ActionValueChange>::empty(),
            !r.undo_block_active(),
    {
        let (sender, receiver) = bounded_task_channel(AUDIO_THREAD_TASK_CHANNEL_CAPACITY);
        Reaper {
            command_by_id: HashMap::new(),
            registration_order: Vec::new(),
            action_value_change_history: HashMap::new(),
            undo_block_is_active: false,
            audio_thread_task_sender: sender,
            session_status: SessionStatus::Sleeping(
                Some(SleepingState { audio_hook: Box::new(HighOnAudioBuffer::new(receiver)) }),
            ),
        }
    }

    /// Whether an action is running inside an open undo block.
    pub fn undoable_action_is_running(&self) -> (r: bool)
        ensures
            r == self.undo_block_active(),
    {
        self.undo_block_is_active
    }

    /// Opens the undo block if none is open. Returns whether the caller now
    /// owes the host a begin-block call; `false` means an undo block was
    /// already active and nothing changed, so nested entries collapse into
    /// the outermost pair.
    pub fn enter_undo_block_internal(&mut self) -> (host_begin_owed: bool)
        ensures
            (final(self).undo_block_active(), host_begin_owed) == spec_enter_undo(
                old(self).undo_block_active(),
            ),
            host_begin_owed == !old(self).undo_block_active(),
            final(self).undo_block_active(),
            old(self).undo_block_active() ==> *final(self) == *old(self),
            final(self).commands() == old(self).commands(),
            final(self).registration_order() == old(self).registration_order(),
            final(self).value_change_history() == old(self).value_change_history(),
            final(self).phase() == old(self).phase(),
            final(self).awake_gaccels() == old(self).awake_gaccels(),
            final(self).awake_audio_handle() == old(self).awake_audio_handle(),
            final(self).parked_audio_hook() == old(self).parked_audio_hook(),
            old(self).wf() ==> final(self).wf(),
    {
        if self.undo_block_is_active {
            return false;
        }
        self.undo_block_is_active = true;
        true
    }

    /// Closes the undo block if one is open. Returns whether the caller now
    /// owes the host an end-block call; `false` means no undo block was
    /// active and nothing changed.
    pub fn leave_undo_block_internal(&mut self) -> (host_end_owed: bool)
        ensures
            (final(self).undo_block_active(), host_end_owed) == spec_leave_undo(
                old(self).undo_block_active(),
            ),
            host_end_owed == old(self).undo_block_active(),
            !final(self).undo_block_active(),
            !old(self).undo_block_active() ==> *final(self) == *old(self),
            final(self).commands() == old(self).commands(),
            final(self).registration_order() == old(self).registration_order(),
            final(self).value_change_history() == old(self).value_change_history(),
            final(self).phase() == old(self).phase(),
            final(self).awake_gaccels() == old(self).awake_gaccels(),
            final(self).awake_audio_handle() == old(self).awake_audio_handle(),
            final(self).parked_audio_hook() == old(self).parked_audio_hook(),
            old(self).wf() ==> final(self).wf(),
    {
        if !self.undo_block_is_active {
            return false;
        }
        self.undo_block_is_active = false;
        true
    }

    /// The shared operation handle for a registered command, or nothing for
    /// an unknown one. This is the lookup behind the host's command
    /// dispatch: the caller reports "not handled" on `None`, and invokes
    /// the handle after releasing its access to the façade, so the
    /// operation may itself register or unregister actions.
    pub fn command_operation(&self, command_id: CommandId) -> (r: Option<SharedOperation>)
        ensures
            r is Some <==> spec_dispatch_handled(self.commands(), command_id.get()),
            r is Some <==> self.commands().contains_key(command_id.get()),
            r matches Some(op) ==> op == self.commands()[command_id.get()].spec_operation(),
    {
        match self.command_by_id.get(&command_id.get()) {
            Some(cmd) => Some(cmd.operation()),
            None => None,
        }
    }

    /// Turns a toggle predicate's answer into the host's toggle-state
    /// result: on exactly when the predicate answered true. The predicate
    /// itself is user code, so this is where the answer's meaning is
    /// pinned down, on the drawn value.
    pub fn toggle_result_from(is_on: bool) -> (r: ToggleActionResult)
        ensures
            r == if is_on {
                ToggleActionResult::On
            } else {
                ToggleActionResult::Off
            },
    {
        if is_on {
            ToggleActionResult::On
        } else {
            ToggleActionResult::Off
        }
    }

    /// Answers the host's toggle-state query. A command that is unknown
    /// here, or whose action is not toggleable, is "not relevant" whatever
    /// the session's state; for a toggleable action the stored predicate is
    /// asked and its answer decides, through [`Self::toggle_result_from`],
    /// between on and off. Nothing is mutated. The predicate is user code,
    /// so which of on and off comes back cannot be pinned here; what each
    /// answer maps to is pinned in `toggle_result_from`.
    pub fn toggle_action_result(&self, command_id: CommandId) -> (r: ToggleActionResult)
        ensures
            spec_toggle_not_relevant(self.commands(), command_id.get()) ==> r
                == ToggleActionResult::NotRelevant,
            !self.commands().contains_key(command_id.get()) ==> r
                == ToggleActionResult::NotRelevant,
            self.commands().contains_key(command_id.get()) ==> {
                let kind = self.commands()[command_id.get()].spec_kind();
                &&& kind is NotToggleable ==> r == ToggleActionResult::NotRelevant
                &&& kind is Toggleable ==> (r == ToggleActionResult::On || r
                    == ToggleActionResult::Off)
            },
    {
        match self.command_by_id.get(&command_id.get()) {
            Some(cmd) => match cmd.kind() {
                ActionKind::Toggleable(is_on) => Self::toggle_result_from(is_on.invoke()),
                ActionKind::NotToggleable => ToggleActionResult::NotRelevant,
            },
            None => ToggleActionResult::NotRelevant,
        }
    }

    /// Records the latest value-change event for a command, as reported by
    /// the host's post-command callback. Events from outside the main
    /// section are ignored. Entries are upserted, never deleted.
    pub fn record_action_value_change(
        &mut self,
        section: SectionContext,
        command_id: CommandId,
        value_change: ActionValueChange,
    )
        ensures
            section != SectionContext::MainSection ==> *final(self) == *old(self),
            section == SectionContext::MainSection ==> final(self).value_change_history() == old(
                self,
            ).value_change_history().insert(command_id.get(), value_change),
            final(self).commands() == old(self).commands(),
            final(self).registration_order() == old(self).registration_order(),
            final(self).undo_block_active() == old(self).undo_block_active(),
            final(self).phase() == old(self).phase(),
            final(self).awake_gaccels() == old(self).awake_gaccels(),
            final(self).awake_audio_handle() == old(self).awake_audio_handle(),
            final(self).parked_audio_hook() == old(self).parked_audio_hook(),
            old(self).wf() ==> final(self).wf(),
    {
        if section != SectionContext::MainSection {
            return ;
        }
        self.action_value_change_history.insert(command_id.get(), value_change);
    }

    /// The last recorded value change for a command, if any was observed.
    pub fn find_last_action_value_change(&self, command_id: CommandId) -> (r: Option<
        ActionValueChange,
    >)
        ensures
            r == if self.value_change_history().contains_key(command_id.get()) {
                Some(self.value_change_history()[command_id.get()])
            } else {
                None::<ActionValueChange>
            },
    {
        match self.action_value_change_history.get(&command_id.get()) {
            Some(change) => Some(*change),
            None => None,
        }
    }

    /// Attempts a non-blocking enqueue of a one-shot closure for the
    /// real-time audio thread. The queue is bounded; when it is full or
    /// its receiving side is gone the task is dropped and the error says
    /// which, as deliberate backpressure — the call never blocks, and
    /// "asap" is an intent, not a guarantee that the task runs. The queue
    /// is shared across threads, so no contract can pin which outcome a
    /// given call sees. May be called from any thread.
    pub fn do_later_in_real_time_audio_thread_asap<F: FnOnce(&RealTimeReaper) + Send + 'static>(
        &self,
        op: F,
    ) -> (r: Result<(), TaskChannelError>) {
        let task = RtTask::new(op);
        try_send_task(&self.audio_thread_task_sender, task)
    }
}


/// What the registry map is after registering `c` under `id`: the first
/// registration for an id wins; a later one changes nothing.
pub open spec fn spec_register_commands(pre: Map<u32, Command>, id: u32, c: Command) -> Map<
    u32,
    Command,
> {
    if pre.contains_key(id) {
        pre
    } else {
        pre.insert(id, c)
    }
}

/// What the recorded accelerator receipts are after recording `handle` for
/// `id`: an existing receipt for the same id gives way, any other stays.
pub open spec fn spec_gaccels_record(
    og: Seq<(u32, GaccelHandle)>,
    id: u32,
    handle: GaccelHandle,
) -> Seq<(u32, GaccelHandle)> {
    if exists|j: int| 0 <= j < og.len() && (#[trigger] og[j]).0 == id {
        let j = choose|j: int| 0 <= j < og.len() && (#[trigger] og[j]).0 == id;
        og.remove(j).push((id, handle))
    } else {
        og.push((id, handle))
    }
}

/// Whether the registry forces the toggle-state query for `id` to answer
/// "not relevant": it does for a command that is unknown or whose action
/// is not toggleable. Only the entry under `id` matters.
pub open spec fn spec_toggle_not_relevant(commands: Map<u32, Command>, id: u32) -> bool {
    !commands.contains_key(id) || commands[id].spec_kind() is NotToggleable
}

/// Whether a host dispatch for `id` finds a registered operation to run:
/// the decision behind the "handled" answer the dispatch gives the host.
pub open spec fn spec_dispatch_handled(commands: Map<u32, Command>, id: u32) -> bool {
    commands.contains_key(id)
}

/// The recorded accelerator receipt for `id`, if any.
pub open spec fn spec_gaccel_lookup(og: Seq<(u32, GaccelHandle)>, id: u32) -> Option<GaccelHandle> {
    if exists|j: int| 0 <= j < og.len() && (#[trigger] og[j]).0 == id {
        let j = choose|j: int| 0 <= j < og.len() && (#[trigger] og[j]).0 == id;
        Some(og[j].1)
    } else {
        None
    }
}

/// From a well-formed awake façade, the recorded accelerator receipts
/// carry each command id at most once.
proof fn lemma_wf_gaccels_unique(r: Reaper, og: Seq<(u32, GaccelHandle)>)
    requires
        r.wf(),
        r.is_awake(),
        og == r.awake_gaccels(),
    ensures
        forall|a: int, b: int|
            0 <= a < b < og.len() ==> (#[trigger] og[a]).0 != (#[trigger] og[b]).0,
{
    match r.session_status {
        SessionStatus::Awake(a0) => {
            assert(a0.gaccel_registers@ == og);
            assert forall|a: int, b: int|
                0 <= a < b < og.len() implies (#[trigger] og[a]).0 != (#[trigger] og[b]).0 by {
                assert(a0.gaccels_unique());
                assert(a0.gaccels()[a] == og[a]);
                assert(a0.gaccels()[b] == og[b]);
            }
        },
        _ => {
            assert(false);
        },
    }
}

impl Reaper {
    /// Registers an action under a host-allocated command id and returns
    /// the receipt for later unregistration, together with whether the
    /// caller now owes the host an accelerator entry for it (it does
    /// exactly when the session is awake; while sleeping the entry is
    /// deferred to the next wake-up and materialized from the registry).
    ///
    /// The first registration for a given id wins: a later call under the
    /// same id leaves the registry unchanged rather than replacing the
    /// operation, so an already-registered handler never changes identity.
    pub fn register_action<F: FnMut() + 'static>(
        &mut self,
        command_id: CommandId,
        description: String,
        operation: F,
        kind: ActionKind,
    ) -> (r: (RegisteredAction, bool))
        requires
            old(self).wf(),
        ensures
            final(self).wf(),
            r.0.command_id() == command_id,
            r.1 == old(self).is_awake(),
            final(self).commands() == spec_register_commands(
                old(self).commands(),
                command_id.get(),
                final(self).commands()[command_id.get()],
            ),
            final(self).commands().contains_key(command_id.get()),
            old(self).commands().contains_key(command_id.get()) ==> final(self).commands() == old(
                self,
            ).commands() && final(self).registration_order() == old(self).registration_order(),
            !old(self).commands().contains_key(command_id.get()) ==> {
                &&& final(self).registration_order() == old(self).registration_order().push(
                    command_id.get(),
                )
                &&& final(self).commands()[command_id.get()].spec_kind() == kind
                &&& final(self).commands()[command_id.get()].spec_description() == description
            },
            final(self).value_change_history() == old(self).value_change_history(),
            final(self).undo_block_active() == old(self).undo_block_active(),
            final(self).phase() == old(self).phase(),
            final(self).awake_gaccels() == old(self).awake_gaccels(),
            final(self).awake_audio_handle() == old(self).awake_audio_handle(),
            final(self).parked_audio_hook() == old(self).parked_audio_hook(),
    {
        let raw: u32 = command_id.get();
        let shared = SharedOperation::new(operation);
        let command = Command::new(shared, kind, description);
        if !self.command_by_id.contains_key(&raw) {
            proof {
                // The id is new to the registry, so by well-formedness it is
                // not in the registration order either.
                assert(!old(self).registration_order().contains(raw));
            }
            self.command_by_id.insert(raw, command);
            self.registration_order.push(raw);
            proof {
                let oldorder = old(self).registration_order();
                let neworder = self.registration_order@;
                assert forall|i: int, j: int| 0 <= i < j < neworder.len() implies neworder[i]
                    != neworder[j] by {
                    if j < oldorder.len() {
                    } else {
                        assert(neworder[j] == raw);
                        assert(oldorder[i] == neworder[i]);
                        if neworder[i] == raw {
                            assert(oldorder.contains(raw));
                        }
                    }
                }
                assert forall|k: u32| #[trigger] self.command_by_id@.contains_key(
                    k,
                ) implies neworder.contains(k) by {
                    if k == raw {
                        assert(neworder[neworder.len() - 1] == raw);
                    } else {
                        let i = choose|i: int| 0 <= i < oldorder.len() && oldorder[i] == k;
                        assert(neworder[i] == k);
                    }
                }
            }
        }
        let registered_action = RegisteredAction::new(command_id);
        let host_entry_owed = match &self.session_status {
            SessionStatus::Sleeping(_) => false,
            SessionStatus::Awake(_) => true,
        };
        (registered_action, host_entry_owed)
    }

    /// Records the host's receipt for an accelerator entry just created for
    /// a command, replacing any receipt recorded for the same id. Returns
    /// whether the receipt was taken, which it is exactly while awake;
    /// while sleeping there is nothing to record and nothing changes.
    pub fn record_accelerator_handle(&mut self, command_id: CommandId, handle: GaccelHandle) -> (r:
        bool)
        requires
            old(self).wf(),
        ensures
            final(self).wf(),
            r == old(self).is_awake(),
            !old(self).is_awake() ==> *final(self) == *old(self),
            old(self).is_awake() ==> final(self).awake_gaccels() == spec_gaccels_record(
                old(self).awake_gaccels(),
                command_id.get(),
                handle,
            ),
            final(self).commands() == old(self).commands(),
            final(self).registration_order() == old(self).registration_order(),
            final(self).value_change_history() == old(self).value_change_history(),
            final(self).undo_block_active() == old(self).undo_block_active(),
            final(self).phase() == old(self).phase(),
            final(self).awake_audio_handle() == old(self).awake_audio_handle(),
            final(self).parked_audio_hook() == old(self).parked_audio_hook(),
    {
        let raw: u32 = command_id.get();
        match &mut self.session_status {
            SessionStatus::Sleeping(_) => false,
            SessionStatus::Awake(awake) => {
                let ghost og = awake.gaccel_registers@;
                proof {
                    // Well-formedness of the old state gives uniqueness of
                    // the recorded ids.
                    lemma_wf_gaccels_unique(*old(self), og);
                }
                let n = awake.gaccel_registers.len();
                let mut i: usize = 0;
                let mut found: bool = false;
                while i < n && !found
                    invariant
                        n == awake.gaccel_registers@.len(),
                        awake.gaccel_registers@ == og,
                        0 <= i <= n,
                        !found ==> forall|j: int| 0 <= j < i ==> (#[trigger] og[j]).0 != raw,
                        found ==> i < n && og[i as int].0 == raw,
                    decreases n - i + (if found { 0int } else { 1int }),
                {
                    if awake.gaccel_registers[i].0 == raw {
                        found = true;
                    } else {
                        i = i + 1;
                    }
                }
                if found {
                    proof {
                        let j = choose|j: int| 0 <= j < og.len() && (#[trigger] og[j]).0 == raw;
                        assert(og[i as int].0 == raw);
                        if j != i {
                            assert(og[j].0 != og[i as int].0);  // uniqueness
                        }
                        og.remove_ensures(i as int);
                    }
                    awake.gaccel_registers.remove(i);
                    awake.gaccel_registers.push((raw, handle));
                } else {
                    awake.gaccel_registers.push((raw, handle));
                }
                proof {
                    let ng = awake.gaccel_registers@;
                    assert forall|a: int, b: int| 0 <= a < b < ng.len() implies (#[trigger] ng[a]).0
                        != (#[trigger] ng[b]).0 by {
                        if found {
                            og.remove_ensures(i as int);
                            let removed = og.remove(i as int);
                            if b == ng.len() - 1 {
                                assert(ng[b] == (raw, handle));
                                if a < i {
                                    assert(ng[a] == og[a]);
                                    assert(og[a].0 != og[i as int].0);
                                } else {
                                    assert(ng[a] == og[a + 1]);
                                    assert(og[a + 1].0 != og[i as int].0);
                                }
                            } else {
                                if b < i {
                                    assert(ng[a] == og[a] && ng[b] == og[b]);
                                } else if a < i {
                                    assert(ng[a] == og[a] && ng[b] == og[b + 1]);
                                } else {
                                    assert(ng[a] == og[a + 1] && ng[b] == og[b + 1]);
                                }
                            }
                        } else {
                            if b == ng.len() - 1 {
                                assert(ng[b] == (raw, handle));
                                assert(ng[a] == og[a]);
                                assert((og[a]).0 != raw);
                            } else {
                                assert(ng[a] == og[a] && ng[b] == og[b]);
                            }
                        }
                    }
                }
                true
            },
        }
    }

    /// Removes an action from the registry — the authoritative existence
    /// check the host-callback hooks rely on, so a dispatch arriving after
    /// this call treats the id as unknown — and reports the accelerator
    /// receipt the caller must now release with the host, if the session is
    /// awake and one was recorded. The receipt stays recorded; the sleep
    /// teardown releases every recorded receipt again, as the host tolerates.
    pub fn unregister_action(&mut self, command_id: CommandId) -> (r: Option<GaccelHandle>)
        requires
            old(self).wf(),
        ensures
            final(self).wf(),
            final(self).commands() == old(self).commands().remove(command_id.get()),
            final(self).registration_order() == old(self).registration_order().remove_value(
                command_id.get(),
            ),
            r == if old(self).is_awake() {
                spec_gaccel_lookup(old(self).awake_gaccels(), command_id.get())
            } else {
                None::<GaccelHandle>
            },
            final(self).value_change_history() == old(self).value_change_history(),
            final(self).undo_block_active() == old(self).undo_block_active(),
            final(self).phase() == old(self).phase(),
            final(self).awake_gaccels() == old(self).awake_gaccels(),
            final(self).awake_audio_handle() == old(self).awake_audio_handle(),
            final(self).parked_audio_hook() == old(self).parked_audio_hook(),
    {
        let raw: u32 = command_id.get();
        self.command_by_id.remove(&raw);
        let ghost oldorder = old(self).registration_order();
        let n = self.registration_order.len();
        let mut i: usize = 0;
        let mut found: bool = false;
        while i < n && !found
            invariant
                n == self.registration_order@.len(),
                self.registration_order@ == oldorder,
                0 <= i <= n,
                !found ==> forall|j: int| 0 <= j < i ==> oldorder[j] != raw,
                found ==> i < n && oldorder[i as int] == raw,
            decreases n - i + (if found { 0int } else { 1int }),
        {
            if self.registration_order[i] == raw {
                found = true;
            } else {
                i = i + 1;
            }
        }
        if found {
            self.registration_order.remove(i);
            proof {
                assert(oldorder[i as int] == raw);
                assert(oldorder.contains(raw));
                oldorder.index_of_first_ensures(raw);
                match oldorder.index_of_first(raw) {
                    Some(idx) => {
                        if idx < i as int {
                            assert(oldorder[idx] != raw);  // the scan saw no earlier occurrence
                            assert(false);
                        }
                        if idx > i as int {
                            assert(oldorder[i as int] != raw);  // idx is the first occurrence
                            assert(false);
                        }
                    },
                    None => {
                        assert(false);
                    },
                }
                assert(self.registration_order@ == oldorder.remove_value(raw));
            }
        } else {
            proof {
                assert(!oldorder.contains(raw));
                oldorder.index_of_first_ensures(raw);
                assert(self.registration_order@ == oldorder.remove_value(raw));
            }
        }
        proof {
            // The order with the id removed still lists exactly the
            // registered ids, each once.
            let neworder = self.registration_order@;
            if found {
                oldorder.remove_ensures(i as int);
            }
            assert forall|a: int, b: int| 0 <= a < b < neworder.len() implies neworder[a]
                != neworder[b] by {
                if found {
                    if b < i {
                        assert(neworder[a] == oldorder[a] && neworder[b] == oldorder[b]);
                    } else if a < i {
                        assert(neworder[a] == oldorder[a] && neworder[b] == oldorder[b + 1]);
                    } else {
                        assert(neworder[a] == oldorder[a + 1] && neworder[b] == oldorder[b + 1]);
                    }
                }
            }
            assert forall|p: int|
                0 <= p < neworder.len() implies self.command_by_id@.contains_key(
                #[trigger] neworder[p],
            ) by {
                if found {
                    if p < i {
                        assert(neworder[p] == oldorder[p]);
                        assert(oldorder[p] != oldorder[i as int]);
                    } else {
                        assert(neworder[p] == oldorder[p + 1]);
                        assert(oldorder[p + 1] != oldorder[i as int]);
                    }
                    assert(neworder[p] != raw);
                } else {
                    assert(neworder[p] == oldorder[p]);
                    assert(neworder[p] != raw);
                }
            }
            assert forall|k: u32| #[trigger] self.command_by_id@.contains_key(
                k,
            ) implies neworder.contains(k) by {
                assert(k != raw);
                assert(old(self).commands().contains_key(k));
                let p = choose|p: int| 0 <= p < oldorder.len() && oldorder[p] == k;
                if found {
                    if p < i {
                        assert(neworder[p] == k);
                    } else if p > i {
                        assert(neworder[p - 1] == k);
                    }
                } else {
                    assert(neworder[p] == k);
                }
            }
        }
        match &self.session_status {
            SessionStatus::Sleeping(_) => None,
            SessionStatus::Awake(awake) => {
                let ghost og = awake.gaccel_registers@;
                proof {
                    // Well-formedness of the old state gives uniqueness of
                    // the recorded ids; the session state is untouched here.
                    lemma_wf_gaccels_unique(*old(self), og);
                }
                let m = awake.gaccel_registers.len();
                let mut p: usize = 0;
                let mut hit: Option<GaccelHandle> = None;
                while p < m && hit.is_none()
                    invariant
                        m == awake.gaccel_registers@.len(),
                        awake.gaccel_registers@ == og,
                        0 <= p <= m,
                        hit is None ==> forall|j: int| 0 <= j < p ==> (#[trigger] og[j]).0 != raw,
                        hit matches Some(h) ==> p < m && og[p as int].0 == raw && h == og[p as int].1,
                    decreases m - p + (if hit is Some { 0int } else { 1int }),
                {
                    if awake.gaccel_registers[p].0 == raw {
                        hit = Some(awake.gaccel_registers[p].1);
                    } else {
                        p = p + 1;
                    }
                }
                proof {
                    match hit {
                        Some(h) => {
                            let j = choose|j: int|
                                0 <= j < og.len() && (#[trigger] og[j]).0 == raw;
                            assert(og[p as int].0 == raw);
                            if j != p {
                                assert(og[j].0 != og[p as int].0);  // uniqueness
                            }
                        },
                        None => {
                            assert(forall|j: int| 0 <= j < og.len() ==> (#[trigger] og[j]).0
                                != raw);
                        },
                    }
                }
                hit
            },
        }
    }
}


impl Reaper {
    /// Begins a wake-up. From the ready sleeping state this discards every
    /// task that accumulated while dormant (none of them runs), takes the
    /// parked adapter out and hands back the plan: the adapter the host's
    /// audio-hook registration must consume, the discard count to log if
    /// nonzero, and one accelerator entry per registered action. The caller
    /// performs the host registrations and then reports the receipts
    /// through [`Self::complete_wake_up`].
    ///
    /// While awake, or while an earlier wake-up never completed, nothing
    /// changes and the error says which; an abandoned wake-up permanently
    /// loses the adapter, as the error's wording records.
    pub fn wake_up(&mut self) -> (r: Result<WakeUpPlan, ReaperError>)
        requires
            old(self).wf(),
        ensures
            final(self).wf(),
            r is Ok <==> spec_wake_up_ok(old(self).phase()),
            final(self).phase() == spec_wake_up_phase(old(self).phase()),
            final(self).commands() == old(self).commands(),
            final(self).registration_order() == old(self).registration_order(),
            final(self).value_change_history() == old(self).value_change_history(),
            final(self).undo_block_active() == old(self).undo_block_active(),
            r matches Err(e) ==> *final(self) == *old(self) && e == (
            if old(self).phase() == SessionPhase::Awake {
                ReaperError::AlreadyAwake
            } else {
                ReaperError::InvalidSleepingState
            }),
            r matches Ok(plan) ==> {
                &&& Some(plan.audio_hook) == old(self).parked_audio_hook()
                &&& final(self).parked_audio_hook() is None
                &&& plan.accel_entries@.len() == old(self).registration_order().len()
                &&& forall|i: int|
                    0 <= i < plan.accel_entries@.len() ==> {
                        let id = old(self).registration_order()[i];
                        (#[trigger] plan.accel_entries@[i]).command_id.get() == id
                            && plan.accel_entries@[i].description == old(
                            self,
                        ).commands()[id].spec_description()
                    }
            },
    {
        let mut status = SessionStatus::Sleeping(None);
        core::mem::swap(&mut status, &mut self.session_status);
        let sleeping = match status {
            SessionStatus::Awake(a) => {
                self.session_status = SessionStatus::Awake(a);
                return Err(ReaperError::AlreadyAwake);
            },
            SessionStatus::Sleeping(None) => {
                return Err(ReaperError::InvalidSleepingState);
            },
            SessionStatus::Sleeping(Some(s)) => s,
        };
        // Tasks that accumulated during the downtime were scheduled against
        // host state that no longer matches the moment of execution: consume
        // all of them without executing any.
        let discarded = sleeping.audio_hook.reset();
        let ghost order = self.registration_order@;
        let n = self.registration_order.len();
        let mut accel_entries: Vec<AccelEntry> = Vec::new();
        let mut i: usize = 0;
        while i < n
            invariant
                n == self.registration_order@.len(),
                self.registration_order@ == order,
                self.command_by_id@ == old(self).commands(),
                forall|j: int|
                    0 <= j < order.len() ==> self.command_by_id@.contains_key(
                        #[trigger] order[j],
                    ),
                0 <= i <= n,
                accel_entries@.len() == i,
                forall|j: int|
                    0 <= j < i ==> {
                        &&& (#[trigger] accel_entries@[j]).command_id.get() == order[j]
                        &&& accel_entries@[j].description == old(
                            self,
                        ).commands()[order[j]].spec_description()
                    },
            decreases n - i,
        {
            let raw = self.registration_order[i];
            // Every id in the registration order is registered, so the
            // lookup cannot miss.
            let cmd = self.command_by_id.get(&raw).unwrap();
            accel_entries.push(
                AccelEntry { command_id: CommandId::new(raw), description: cmd.description() },
            );
            i = i + 1;
        }
        Ok(WakeUpPlan {
            audio_hook: sleeping.audio_hook,
            discarded_task_count: discarded,
            accel_entries,
        })
    }

    /// Completes a begun wake-up with the host's receipts: the audio hook's
    /// registration handle and one accelerator receipt per entry the host
    /// accepted, each id at most once. The session then holds them as its
    /// awake state. Without a wake-up under way nothing changes and the
    /// error says why.
    pub fn complete_wake_up(
        &mut self,
        audio_hook_register_handle: AudioHookHandle,
        gaccel_handles: Vec<(u32, GaccelHandle)>,
    ) -> (r: Result<(), ReaperError>)
        requires
            old(self).wf(),
            forall|a: int, b: int|
                0 <= a < b < gaccel_handles@.len() ==> (#[trigger] gaccel_handles@[a]).0 != (
                #[trigger] gaccel_handles@[b]).0,
        ensures
            final(self).wf(),
            r is Ok <==> spec_complete_wake_up_ok(old(self).phase()),
            final(self).phase() == spec_complete_wake_up_phase(old(self).phase()),
            final(self).commands() == old(self).commands(),
            final(self).registration_order() == old(self).registration_order(),
            final(self).value_change_history() == old(self).value_change_history(),
            final(self).undo_block_active() == old(self).undo_block_active(),
            r matches Err(e) ==> *final(self) == *old(self) && e == (
            if old(self).phase() == SessionPhase::Awake {
                ReaperError::AlreadyAwake
            } else {
                ReaperError::NoWakeUpInProgress
            }),
            r is Ok ==> {
                &&& final(self).awake_gaccels() == gaccel_handles@
                &&& final(self).awake_audio_handle() == Some(audio_hook_register_handle)
            },
    {
        match &self.session_status {
            SessionStatus::Awake(_) => Err(ReaperError::AlreadyAwake),
            SessionStatus::Sleeping(Some(_)) => Err(ReaperError::NoWakeUpInProgress),
            SessionStatus::Sleeping(None) => {
                self.session_status = SessionStatus::Awake(
                    AwakeState { audio_hook_register_handle, gaccel_registers: gaccel_handles },
                );
                Ok(())
            },
        }
    }

    /// Queries what a sleep must release with the host: the audio hook's
    /// handle — whose removal recovers the adapter and must succeed before
    /// anything else is torn down — and every recorded accelerator receipt.
    /// Mutates nothing; the caller reports the recovered adapter through
    /// [`Self::complete_go_to_sleep`]. While sleeping the query fails.
    pub fn go_to_sleep(&self) -> (r: Result<SleepPlan, ReaperError>)
        ensures
            r is Ok <==> spec_go_to_sleep_ok(self.phase()),
            r matches Err(e) ==> e == ReaperError::AlreadySleeping,
            r matches Ok(plan) ==> {
                &&& Some(plan.audio_hook_register_handle) == self.awake_audio_handle()
                &&& plan.gaccel_handles@.len() == self.awake_gaccels().len()
                &&& forall|i: int|
                    0 <= i < plan.gaccel_handles@.len() ==> #[trigger] plan.gaccel_handles@[i]
                        == self.awake_gaccels()[i].1
            },
    {
        match &self.session_status {
            SessionStatus::Sleeping(_) => Err(ReaperError::AlreadySleeping),
            SessionStatus::Awake(awake) => {
                let ghost og = awake.gaccel_registers@;
                let m = awake.gaccel_registers.len();
                let mut handles: Vec<GaccelHandle> = Vec::new();
                let mut p: usize = 0;
                while p < m
                    invariant
                        m == awake.gaccel_registers@.len(),
                        awake.gaccel_registers@ == og,
                        0 <= p <= m,
                        handles@.len() == p,
                        forall|j: int| 0 <= j < p ==> #[trigger] handles@[j] == og[j].1,
                    decreases m - p,
                {
                    handles.push(awake.gaccel_registers[p].1);
                    p = p + 1;
                }
                Ok(SleepPlan {
                    audio_hook_register_handle: awake.audio_hook_register_handle,
                    gaccel_handles: handles,
                })
            },
        }
    }

    /// Completes a sleep with the adapter the host handed back when its
    /// audio hook was removed: drops every held receipt and parks the
    /// adapter, ready for the next wake-up. While sleeping nothing changes
    /// and the error says so; the caller keeps the session awake instead
    /// when the host refuses to hand the adapter back.
    pub fn complete_go_to_sleep(&mut self, audio_hook: Box<HighOnAudioBuffer>) -> (r: Result<
        (),
        ReaperError,
    >)
        requires
            old(self).wf(),
        ensures
            final(self).wf(),
            r is Ok <==> spec_go_to_sleep_ok(old(self).phase()),
            final(self).phase() == spec_complete_go_to_sleep_phase(old(self).phase()),
            final(self).commands() == old(self).commands(),
            final(self).registration_order() == old(self).registration_order(),
            final(self).value_change_history() == old(self).value_change_history(),
            final(self).undo_block_active() == old(self).undo_block_active(),
            r matches Err(e) ==> *final(self) == *old(self) && e == ReaperError::AlreadySleeping,
            r is Ok ==> final(self).parked_audio_hook() == Some(audio_hook),
    {
        match &self.session_status {
            SessionStatus::Sleeping(_) => Err(ReaperError::AlreadySleeping),
            SessionStatus::Awake(_) => {
                self.session_status = SessionStatus::Sleeping(Some(SleepingState { audio_hook }));
                Ok(())
            },
        }
    }
}


/// What entering the undo block does to the "active" flag, and whether the
/// caller then owes the host a begin-block call.
pub open spec fn spec_enter_undo(active: bool) -> (bool, bool) {
    (true, !active)
}

/// What leaving the undo block does to the "active" flag, and whether the
/// caller then owes the host an end-block call.
pub open spec fn spec_leave_undo(active: bool) -> (bool, bool) {
    (false, active)
}

/// Law: session alternation. Across any sequence of wake and sleep
/// transitions the session strictly alternates sleeping, awake, sleeping…;
/// asking for the same transition twice in a row yields an error and
/// leaves the state unchanged, as the transition functions the operations'
/// contracts are stated over show.
pub proof fn lemma_session_strict_alternation(p: SessionPhase)
    ensures
        // a wake-up succeeds exactly from the ready sleeping state, and a
        // failed one changes nothing
        spec_wake_up_ok(p) <==> p == SessionPhase::SleepingReady,
        !spec_wake_up_ok(p) ==> spec_wake_up_phase(p) == p,
        // waking twice in a row never succeeds, whatever the first did
        !spec_wake_up_ok(spec_wake_up_phase(p)),
        !spec_wake_up_ok(spec_complete_wake_up_phase(spec_wake_up_phase(p))),
        // a successful wake-up cycle ends awake
        spec_wake_up_ok(p) ==> spec_complete_wake_up_phase(spec_wake_up_phase(p))
            == SessionPhase::Awake,
        // sleeping succeeds exactly while awake, ends ready to wake, and a
        // failed sleep changes nothing
        spec_go_to_sleep_ok(p) <==> p == SessionPhase::Awake,
        !spec_go_to_sleep_ok(p) ==> spec_complete_go_to_sleep_phase(p) == p,
        spec_go_to_sleep_ok(p) ==> spec_complete_go_to_sleep_phase(p)
            == SessionPhase::SleepingReady,
        // sleeping twice in a row never succeeds
        !spec_go_to_sleep_ok(spec_complete_go_to_sleep_phase(p)),
{
}

/// Law: idempotent insert. The registry holds at most one entry per
/// command id, and registering an id that is already present keeps the
/// first entry — operation, kind and description — never the second.
pub proof fn lemma_register_first_wins(pre: Map<u32, Command>, id: u32, c1: Command, c2: Command)
    ensures
        spec_register_commands(spec_register_commands(pre, id, c1), id, c2)
            == spec_register_commands(pre, id, c1),
        spec_register_commands(pre, id, c1).contains_key(id),
        spec_register_commands(pre, id, c1)[id] == if pre.contains_key(id) {
            pre[id]
        } else {
            c1
        },
        !pre.contains_key(id) ==> spec_register_commands(pre, id, c1) == pre.insert(id, c1),
{
    assert(spec_register_commands(pre, id, c1).contains_key(id));
}

/// Law: undo nesting. Entering twice and leaving twice performs exactly
/// one host begin-block call and one host end-block call — the nested pair
/// collapses into the outermost pair's boundaries — and at most one undo
/// block is ever open.
pub proof fn lemma_undo_nesting()
    ensures
        ({
            let (active1, begin1) = spec_enter_undo(false);
            let (active2, begin2) = spec_enter_undo(active1);
            let (active3, end1) = spec_leave_undo(active2);
            let (active4, end2) = spec_leave_undo(active3);
            &&& begin1
            &&& !begin2
            &&& end1
            &&& !end2
            &&& !active4
        }),
{
}

/// Law: toggle relevance. The query for a command that is unknown or not
/// toggleable answers "not relevant", and that is decided by the entry
/// under the queried id alone: two registries agreeing on that entry force
/// the same answer, whatever else either holds, in whatever order it grew
/// — and the session state plays no part, since the query's contract never
/// mentions it.
pub proof fn lemma_toggle_not_relevant(c1: Map<u32, Command>, c2: Map<u32, Command>, id: u32)
    requires
        c1.contains_key(id) == c2.contains_key(id),
        c1.contains_key(id) ==> c1[id].spec_kind() == c2[id].spec_kind(),
    ensures
        spec_toggle_not_relevant(c1, id) == spec_toggle_not_relevant(c2, id),
        !c1.contains_key(id) ==> spec_toggle_not_relevant(c1, id),
{
}

/// Law: unregister, then dispatch. After an action's command id is removed
/// from the registry, a host dispatch for that id is not handled: the
/// lookup finds no operation, so none is invoked and the host is told so —
/// whether the session is awake or sleeping at the time, since neither the
/// removal of the entry nor the lookup reads the session state.
pub proof fn lemma_unregister_then_dispatch(pre: Map<u32, Command>, id: u32)
    ensures
        !pre.remove(id).contains_key(id),
        !spec_dispatch_handled(pre.remove(id), id),
{
}

} // verus!
