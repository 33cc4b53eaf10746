//! Reference-counted activation: independent extension modules share one
//! wake/sleep cycle. The first acquirer wakes the session (running a
//! process-lifetime initializer exactly once ever), later acquirers share
//! the live token, and the release that lets the last one go runs the
//! stored teardown exactly once and puts the session back to sleep.
//!
//! The coordinator here is the counting model: its count stands for the
//! number of strong references to the shared guard token. The caller holds
//! the token behind its process-wide lock, performs the façade's wake and
//! sleep calls when told to, and drives `release` from the token's drop.

use vstd::prelude::*;

verus! {

/// A one-shot teardown closure, produced by the caller's wake step and run
/// when the last guard goes away. The closure is user code and opaque.
#[verifier::external_body]
pub struct TeardownFn {
    f: Box<dyn FnOnce() + Send + Sync + 'static>,
}

impl TeardownFn {
    /// Relies on `Box::new` alone: boxes the closure without calling it.
    #[verifier::external_body]
    pub fn new<F: FnOnce() + Send + Sync + 'static>(f: F) -> (r: TeardownFn) {
        TeardownFn { f: Box::new(f) }
    }

    /// Runs the teardown once, consuming it. The closure is user code;
    /// nothing is known about its effect.
    #[verifier::external_body]
    pub fn invoke(self) {
        (self.f)()
    }
}

/// The shared guard token: it owes one teardown run, handed out exactly
/// once, when the last strong reference to the token is released.
pub struct ReaperGuard {
    go_to_sleep: Option<TeardownFn>,
}

impl ReaperGuard {
    /// Whether the teardown is still owed.
    pub closed spec fn has_teardown(self) -> bool {
        self.go_to_sleep is Some
    }

    /// Wraps the teardown produced by an activation's wake step.
    pub fn new(go_to_sleep: TeardownFn) -> (r: Self)
        ensures
            r.has_teardown(),
    {
        ReaperGuard { go_to_sleep: Some(go_to_sleep) }
    }

    /// Takes the owed teardown out, leaving none: a second take finds
    /// nothing, so the teardown cannot run twice.
    pub fn take_go_to_sleep(&mut self) -> (r: Option<TeardownFn>)
        ensures
            !final(self).has_teardown(),
            r is Some <==> old(self).has_teardown(),
    {
        let mut taken: Option<TeardownFn> = None;
        core::mem::swap(&mut taken, &mut self.go_to_sleep);
        taken
    }
}

/// What an acquisition decided.
#[derive(Debug)]
pub enum GuardActivation {
    /// A token was already live: share it, with no side effects.
    Shared,
    /// No token was live: wake the session, and run the process-lifetime
    /// initializer first if it never ran.
    Activated {
        /// True exactly on the first activation of the process's lifetime.
        run_initializer: bool,
    },
}

impl GuardActivation {
    /// Whether this acquisition shares an already-live token.
    pub fn is_shared(&self) -> (r: bool)
        ensures
            r == (*self is Shared),
    {
        match self {
            GuardActivation::Shared => true,
            GuardActivation::Activated { .. } => false,
        }
    }
}

/// What a release decided.
#[derive(Copy, Clone, Eq, PartialEq, Debug, Structural)]
pub enum GuardRelease {
    /// Other guards are still live: do nothing.
    StillLive,
    /// The last guard went away: run the token's teardown, then put the
    /// session to sleep.
    LastReleased,
}

/// What an acquisition does to the count of live guards and the one-time
/// initializer flag, and what it answers.
pub open spec fn spec_guard_acquire(live: u64, initializer_done: bool) -> (u64, bool, GuardActivation)
    recommends
        live < u64::MAX,
{
    if live > 0 {
        ((live + 1) as u64, initializer_done, GuardActivation::Shared)
    } else {
        (1u64, true, GuardActivation::Activated { run_initializer: !initializer_done })
    }
}

/// What a release does to the count of live guards, and what it answers.
pub open spec fn spec_guard_release(live: u64) -> (u64, GuardRelease)
    recommends
        live > 0,
{
    (
        (live - 1) as u64,
        if live == 1 {
            GuardRelease::LastReleased
        } else {
            GuardRelease::StillLive
        },
    )
}

/// The counting model behind the process-wide guard: how many strong
/// references to the shared token are live, and whether the one-time
/// initializer has ever run in this process.
pub struct GuardCoordinator {
    live_guards: u64,
    initializer_has_run: bool,
}

impl GuardCoordinator {
    /// The number of live guards, for use in contracts.
    pub closed spec fn live(self) -> u64 {
        self.live_guards
    }

    /// Whether the one-time initializer has run, for use in contracts.
    pub closed spec fn initializer_done(self) -> bool {
        self.initializer_has_run
    }

    /// The number of live guards.
    pub fn live_count(&self) -> (r: u64)
        ensures
            r == self.live(),
    {
        self.live_guards
    }

    /// A fresh coordinator: no guard live, initializer never run.
    pub fn new() -> (r: GuardCoordinator)
        ensures
            r.live() == 0,
            !r.initializer_done(),
    {
        GuardCoordinator { live_guards: 0, initializer_has_run: false }
    }

    /// One more activator. Answers whether it shares a live token or must
    /// activate, and whether an activation must first run the one-time
    /// initializer. The count is bounded by the number of simultaneously
    /// live guard handles, which cannot reach the count's limit.
    pub fn acquire(&mut self) -> (r: GuardActivation)
        requires
            old(self).live() < u64::MAX,
        ensures
            (final(self).live(), final(self).initializer_done(), r) == spec_guard_acquire(
                old(self).live(),
                old(self).initializer_done(),
            ),
    {
        if self.live_guards > 0 {
            self.live_guards = self.live_guards + 1;
            GuardActivation::Shared
        } else {
            self.live_guards = 1;
            let run_initializer = !self.initializer_has_run;
            self.initializer_has_run = true;
            GuardActivation::Activated { run_initializer }
        }
    }

    /// One activator fewer. Answers whether the released guard was the
    /// last one, in which case the caller runs the token's teardown and
    /// puts the session to sleep — once per activation cycle.
    pub fn release(&mut self) -> (r: GuardRelease)
        requires
            old(self).live() > 0,
        ensures
            (final(self).live(), r) == spec_guard_release(old(self).live()),
            final(self).initializer_done() == old(self).initializer_done(),
    {
        self.live_guards = self.live_guards - 1;
        if self.live_guards == 0 {
            GuardRelease::LastReleased
        } else {
            GuardRelease::StillLive
        }
    }
}

/// Law: guard sharing. While a guard token is live, further acquisitions
/// share the same token with no side effects, however many there are; the
/// teardown-and-sleep step runs exactly once, at the release that lets the
/// last live guard go; and the one-time initializer runs on the first
/// activation of the process's lifetime and never again, while later
/// activation cycles still wake the session anew.
pub proof fn lemma_guard_sharing(live0: u64, initializer_done0: bool)
    requires
        1 <= live0,
        live0 + 2 <= u64::MAX,
    ensures
        ({
            // Two independent acquisitions while a guard is live: both share.
            let (live1, init1, first) = spec_guard_acquire(live0, initializer_done0);
            let (live2, init2, second) = spec_guard_acquire(live1, init1);
            &&& first is Shared
            &&& second is Shared
            &&& init1 == initializer_done0
            &&& init2 == initializer_done0
            &&& live2 == live0 + 2
        }),
        // A release triggers the teardown exactly when it is the last one.
        forall|live: u64|
            1 <= live ==> ((#[trigger] spec_guard_release(live)).1 == GuardRelease::LastReleased
                <==> live == 1),
        // The first-ever activation runs the initializer; any activation
        // after that — in this or a later cycle — does not.
        spec_guard_acquire(0, false).2 == (GuardActivation::Activated { run_initializer: true }),
        spec_guard_acquire(0, true).2 == (GuardActivation::Activated { run_initializer: false }),
        // Once run, the initializer flag never clears.
        forall|live: u64|
            live < u64::MAX ==> (#[trigger] spec_guard_acquire(live, true)).1 == true,
{
}

} // verus!
