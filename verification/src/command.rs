//! Commands: the identifier a host allocates for an action, the shareable
//! handle to the action's operation, its toggle kind and the registry entry
//! built from them.

use vstd::prelude::*;

verus! {

/// The stable numeric identifier the host allocates for a named command.
#[derive(Copy, Clone, Eq, PartialEq, Hash, Debug, Structural)]
pub struct CommandId(u32);

impl CommandId {
    /// The wrapped number, for use in contracts.
    pub closed spec fn spec_get(self) -> u32 {
        self.0
    }

    /// Wraps a raw command identifier.
    pub fn new(raw: u32) -> (r: Self)
        ensures
            r.get() == raw,
    {
        Self(raw)
    }

    /// Returns the raw identifier.
    #[verifier::when_used_as_spec(spec_get)]
    pub fn get(self) -> (r: u32)
        ensures
            r == self.spec_get(),
    {
        self.0
    }
}

/// A shareable, mutably-invocable handle to an action's operation.
///
/// The shared ownership is what lets a host dispatch release its read access
/// to the registry before the operation runs, so the operation may itself
/// register or unregister actions. The closure inside is user code and
/// opaque: nothing is known about what an invocation does.
#[verifier::external_body]
pub struct SharedOperation {
    op: std::rc::Rc<core::cell::RefCell<dyn FnMut() + 'static>>,
}

impl SharedOperation {
    /// Relies on `Rc::new` and `RefCell::new` alone: wraps the closure
    /// without calling it.
    #[verifier::external_body]
    pub fn new<F: FnMut() + 'static>(op: F) -> (r: SharedOperation) {
        SharedOperation { op: std::rc::Rc::new(core::cell::RefCell::new(op)) }
    }

    /// Relies on `Rc::clone`: hands out a second owner of the same
    /// operation. The handle is the shared closure it points to, so the
    /// clone is the same value.
    #[verifier::external_body]
    pub fn share(&self) -> (r: SharedOperation)
        ensures
            r == *self,
    {
        SharedOperation { op: std::rc::Rc::clone(&self.op) }
    }

    /// Runs the operation once. Relies on `RefCell::borrow_mut`; the borrow
    /// is exclusive, so the operation must not invoke this same handle
    /// again while it runs. The closure is user code; nothing is known
    /// about its effect.
    #[verifier::external_body]
    pub fn invoke(&self) {
        (self.op.borrow_mut())()
    }
}

/// A read-only predicate reporting whether a toggleable action is currently
/// on. The closure inside is user code and opaque; its result may differ
/// between calls.
#[verifier::external_body]
pub struct TogglePredicate {
    is_on: Box<dyn Fn() -> bool + 'static>,
}

impl TogglePredicate {
    /// Relies on `Box::new` alone: boxes the predicate without calling it.
    #[verifier::external_body]
    pub fn new<F: Fn() -> bool + 'static>(is_on: F) -> (r: TogglePredicate) {
        TogglePredicate { is_on: Box::new(is_on) }
    }

    /// Asks the predicate. User code decides the answer; nothing relates it
    /// to earlier answers.
    #[verifier::external_body]
    pub fn invoke(&self) -> (r: bool) {
        (self.is_on)()
    }
}

/// Whether an action reports a toggle state to the host.
pub enum ActionKind {
    /// The action has no on/off state.
    NotToggleable,
    /// The action is a toggle whose current state the predicate reports.
    Toggleable(TogglePredicate),
}

/// Builds the toggleable kind from a state predicate.
pub fn toggleable<F: Fn() -> bool + 'static>(is_on: F) -> (r: ActionKind)
    ensures
        r is Toggleable,
{
    ActionKind::Toggleable(TogglePredicate::new(is_on))
}

/// One entry of the action registry: the operation the host dispatch runs,
/// the toggle kind and the human-readable description shown to the host.
pub struct Command {
    operation: SharedOperation,
    kind: ActionKind,
    description: String,
}

impl Command {
    /// The stored operation handle, for use in contracts.
    pub closed spec fn spec_operation(self) -> SharedOperation {
        self.operation
    }

    /// The stored kind, for use in contracts.
    pub closed spec fn spec_kind(self) -> ActionKind {
        self.kind
    }

    /// The stored description, for use in contracts.
    pub closed spec fn spec_description(self) -> String {
        self.description
    }

    /// Builds a registry entry.
    pub fn new(operation: SharedOperation, kind: ActionKind, description: String) -> (r: Command)
        ensures
            r.spec_operation() == operation,
            r.spec_kind() == kind,
            r.spec_description() == description,
    {
        Command { operation, kind, description }
    }

    /// A shared handle to the stored operation.
    pub fn operation(&self) -> (r: SharedOperation)
        ensures
            r == self.spec_operation(),
    {
        self.operation.share()
    }

    /// Whether the entry is a toggle, and if so a look at its predicate.
    pub fn kind(&self) -> (r: &ActionKind)
        ensures
            *r == self.spec_kind(),
    {
        &self.kind
    }

    /// A copy of the description.
    pub fn description(&self) -> (r: String)
        ensures
            r == self.spec_description(),
    {
        self.description.clone()
    }
}

/// The caller-side receipt for a registered action, carrying the command id
/// it was registered under.
#[derive(Copy, Clone, Eq, PartialEq, Hash, Debug, Structural)]
pub struct RegisteredAction {
    command_id: CommandId,
}

impl RegisteredAction {
    /// The registered command's id, for use in contracts.
    pub closed spec fn spec_command_id(&self) -> CommandId {
        self.command_id
    }

    /// Builds a receipt for the given command id.
    pub fn new(command_id: CommandId) -> (r: RegisteredAction)
        ensures
            r.command_id() == command_id,
    {
        RegisteredAction { command_id }
    }

    /// The registered command's id.
    #[verifier::when_used_as_spec(spec_command_id)]
    pub fn command_id(&self) -> (r: CommandId)
        ensures
            r == self.spec_command_id(),
    {
        self.command_id
    }

    /// Removes the action this receipt stands for from the façade's
    /// registry, and hands back the accelerator receipt the caller must now
    /// release with the host, if the session is awake and one was recorded.
    pub fn unregister(&self, reaper: &mut crate::reaper::Reaper) -> (r: Option<
        crate::session::GaccelHandle,
    >)
        requires
            old(reaper).wf(),
        ensures
            final(reaper).wf(),
            final(reaper).commands() == old(reaper).commands().remove(self.command_id().get()),
            final(reaper).registration_order() == old(reaper).registration_order().remove_value(
                self.command_id().get(),
            ),
            r == if old(reaper).is_awake() {
                crate::reaper::spec_gaccel_lookup(
                    old(reaper).awake_gaccels(),
                    self.command_id().get(),
                )
            } else {
                None::<crate::session::GaccelHandle>
            },
            final(reaper).value_change_history() == old(reaper).value_change_history(),
            final(reaper).undo_block_active() == old(reaper).undo_block_active(),
            final(reaper).phase() == old(reaper).phase(),
            final(reaper).awake_gaccels() == old(reaper).awake_gaccels(),
            final(reaper).awake_audio_handle() == old(reaper).awake_audio_handle(),
            final(reaper).parked_audio_hook() == old(reaper).parked_audio_hook(),
    {
        reaper.unregister_action(self.command_id)
    }
}

} // verus!
