use std::cell::Cell;
use std::rc::Rc;

use reaper_core::command::{ActionKind, CommandId};
use reaper_core::reaper::{
    ActionValueChange, Reaper, ReaperError, SectionContext, ToggleActionResult,
};
use reaper_core::session::{AudioHookHandle, GaccelHandle, HighOnAudioBuffer};

fn wake_fully(reaper: &mut Reaper) -> Box<HighOnAudioBuffer> {
    let plan = reaper.wake_up().expect("wake-up should succeed from the ready state");
    let mut handles: Vec<(u32, GaccelHandle)> = Vec::new();
    for (index, entry) in plan.accel_entries.iter().enumerate() {
        handles.push((entry.command_id.get(), GaccelHandle(1000 + index)));
    }
    reaper
        .complete_wake_up(AudioHookHandle(1), handles)
        .expect("completion should succeed mid-wake");
    // The adapter plays the host's part while awake; the test keeps it the
    // way the host would, and hands it back on sleep.
    plan.audio_hook
}

fn sleep_fully(reaper: &mut Reaper, adapter: Box<HighOnAudioBuffer>) {
    let _plan = reaper.go_to_sleep().expect("sleep query should succeed while awake");
    reaper
        .complete_go_to_sleep(adapter)
        .expect("sleep completion should succeed while awake");
}

#[test]
fn session_alternates_and_double_wake_fails() {
    let mut reaper = Reaper::new();
    // Sleeping: a sleep query fails, a wake-up succeeds.
    assert_eq!(reaper.go_to_sleep().unwrap_err(), ReaperError::AlreadySleeping);
    let plan = reaper.wake_up().expect("first wake-up");
    assert_eq!(plan.discarded_task_count, 0);
    // Mid-wake: a second wake-up fails without the adapter.
    assert_eq!(reaper.wake_up().unwrap_err(), ReaperError::InvalidSleepingState);
    reaper
        .complete_wake_up(AudioHookHandle(7), Vec::new())
        .expect("completion");
    // Awake: waking again fails, sleeping succeeds.
    assert_eq!(reaper.wake_up().unwrap_err(), ReaperError::AlreadyAwake);
    let sleep_plan = reaper.go_to_sleep().expect("sleep query");
    assert_eq!(sleep_plan.audio_hook_register_handle, AudioHookHandle(7));
    reaper
        .complete_go_to_sleep(plan.audio_hook)
        .expect("sleep completion");
    // Sleeping again: a second sleep fails, a wake-up succeeds again.
    assert_eq!(reaper.go_to_sleep().unwrap_err(), ReaperError::AlreadySleeping);
    assert!(reaper.wake_up().is_ok());
}

#[test]
fn error_messages_match_the_session_state() {
    let mut reaper = Reaper::new();
    assert_eq!(
        reaper.go_to_sleep().unwrap_err().message(),
        "Session is already sleeping"
    );
    let _plan = reaper.wake_up().unwrap();
    assert_eq!(
        reaper.wake_up().unwrap_err().message(),
        "Previous wake-up left session in invalid state"
    );
    reaper.complete_wake_up(AudioHookHandle(1), Vec::new()).unwrap();
    assert_eq!(reaper.wake_up().unwrap_err().message(), "Session is already awake");
    assert_eq!(
        reaper.complete_wake_up(AudioHookHandle(2), Vec::new()).unwrap_err(),
        ReaperError::AlreadyAwake
    );
}

#[test]
fn complete_wake_up_needs_a_wake_in_progress() {
    let mut reaper = Reaper::new();
    let err = reaper
        .complete_wake_up(AudioHookHandle(3), Vec::new())
        .unwrap_err();
    assert_eq!(err, ReaperError::NoWakeUpInProgress);
    assert_eq!(err.message(), "No wake-up is in progress");
}

#[test]
fn register_same_id_twice_keeps_the_first_operation() {
    let mut reaper = Reaper::new();
    let first_ran = Rc::new(Cell::new(0u32));
    let second_ran = Rc::new(Cell::new(0u32));
    let id = CommandId::new(42);
    let f = Rc::clone(&first_ran);
    let (action, owed) = reaper.register_action(
        id,
        String::from("First"),
        move || f.set(f.get() + 1),
        ActionKind::NotToggleable,
    );
    assert_eq!(action.command_id().get(), 42);
    assert!(!owed, "no accelerator entry owed while sleeping");
    let g = Rc::clone(&second_ran);
    let _ = reaper.register_action(
        id,
        String::from("Second"),
        move || g.set(g.get() + 1),
        ActionKind::NotToggleable,
    );
    // Dispatch runs the first operation, never the second.
    let op = reaper.command_operation(id).expect("registered command");
    op.invoke();
    assert_eq!(first_ran.get(), 1);
    assert_eq!(second_ran.get(), 0);
}

#[test]
fn register_while_awake_owes_a_host_entry() {
    let mut reaper = Reaper::new();
    let _adapter = wake_fully(&mut reaper);
    let (_, owed) = reaper.register_action(
        CommandId::new(5),
        String::from("Do it"),
        || {},
        ActionKind::NotToggleable,
    );
    assert!(owed, "an accelerator entry is owed immediately while awake");
    assert!(reaper.record_accelerator_handle(CommandId::new(5), GaccelHandle(77)));
}

#[test]
fn record_accelerator_handle_is_refused_while_sleeping() {
    let mut reaper = Reaper::new();
    assert!(!reaper.record_accelerator_handle(CommandId::new(5), GaccelHandle(77)));
}

#[test]
fn wake_up_plan_lists_registered_actions_in_order() {
    let mut reaper = Reaper::new();
    for (raw, name) in [(9u32, "Nine"), (4u32, "Four"), (7u32, "Seven")] {
        let _ = reaper.register_action(
            CommandId::new(raw),
            String::from(name),
            || {},
            ActionKind::NotToggleable,
        );
    }
    let plan = reaper.wake_up().unwrap();
    let listed: Vec<(u32, String)> = plan
        .accel_entries
        .iter()
        .map(|e| (e.command_id.get(), e.description.clone()))
        .collect();
    assert_eq!(
        listed,
        vec![
            (9, String::from("Nine")),
            (4, String::from("Four")),
            (7, String::from("Seven"))
        ]
    );
}

#[test]
fn unregister_then_dispatch_is_not_handled_while_sleeping() {
    let mut reaper = Reaper::new();
    let id = CommandId::new(11);
    let (action, _) =
        reaper.register_action(id, String::from("Gone"), || {}, ActionKind::NotToggleable);
    assert!(reaper.command_operation(id).is_some());
    let released = action.unregister(&mut reaper);
    assert_eq!(released, None, "no host receipt to release while sleeping");
    assert!(reaper.command_operation(id).is_none(), "dispatch must report not handled");
}

#[test]
fn unregister_then_dispatch_is_not_handled_while_awake() {
    let mut reaper = Reaper::new();
    let id = CommandId::new(12);
    let (action, _) =
        reaper.register_action(id, String::from("Gone"), || {}, ActionKind::NotToggleable);
    let _adapter = wake_fully(&mut reaper);
    let released = action.unregister(&mut reaper);
    assert_eq!(
        released,
        Some(GaccelHandle(1000)),
        "the receipt recorded on wake-up must be handed back for release"
    );
    assert!(reaper.command_operation(id).is_none(), "dispatch must report not handled");
}

#[test]
fn operation_may_reenter_the_registry() {
    // The dispatch path hands out a shared operation handle so the façade
    // access can end before the operation runs; the operation itself then
    // registers another action, as the original borrow rules require.
    let mut reaper = Reaper::new();
    let id = CommandId::new(21);
    let nested_ran = Rc::new(Cell::new(false));
    let (_, _) = reaper.register_action(
        id,
        String::from("Outer"),
        || {},
        ActionKind::NotToggleable,
    );
    let op = reaper.command_operation(id).unwrap();
    // The façade access ended above; re-entering the registry is now safe.
    op.invoke();
    let n = Rc::clone(&nested_ran);
    let (_, _) = reaper.register_action(
        CommandId::new(22),
        String::from("Inner"),
        move || n.set(true),
        ActionKind::NotToggleable,
    );
    let inner = reaper.command_operation(CommandId::new(22)).unwrap();
    inner.invoke();
    assert!(nested_ran.get());
}

#[test]
fn toggle_query_for_not_toggleable_is_not_relevant() {
    let mut reaper = Reaper::new();
    let id = CommandId::new(30);
    let _ = reaper.register_action(id, String::from("Plain"), || {}, ActionKind::NotToggleable);
    assert_eq!(reaper.toggle_action_result(id), ToggleActionResult::NotRelevant);
    // Unknown ids are not relevant either.
    assert_eq!(
        reaper.toggle_action_result(CommandId::new(31)),
        ToggleActionResult::NotRelevant
    );
    // The answer does not depend on the session state.
    let adapter = wake_fully(&mut reaper);
    assert_eq!(reaper.toggle_action_result(id), ToggleActionResult::NotRelevant);
    sleep_fully(&mut reaper, adapter);
    assert_eq!(reaper.toggle_action_result(id), ToggleActionResult::NotRelevant);
}

#[test]
fn toggle_result_from_maps_the_predicate_answer() {
    assert_eq!(Reaper::toggle_result_from(true), ToggleActionResult::On);
    assert_eq!(Reaper::toggle_result_from(false), ToggleActionResult::Off);
}

#[test]
fn toggle_query_follows_the_predicate() {
    let mut reaper = Reaper::new();
    let state = Rc::new(Cell::new(false));
    let id = CommandId::new(33);
    let s = Rc::clone(&state);
    let _ = reaper.register_action(
        id,
        String::from("Toggle"),
        || {},
        reaper_core::command::toggleable(move || s.get()),
    );
    assert_eq!(reaper.toggle_action_result(id), ToggleActionResult::Off);
    state.set(true);
    assert_eq!(reaper.toggle_action_result(id), ToggleActionResult::On);
}

#[test]
fn undo_block_nesting_collapses_to_one_pair() {
    let mut reaper = Reaper::new();
    assert!(!reaper.undoable_action_is_running());
    let mut begins = 0;
    let mut ends = 0;
    if reaper.enter_undo_block_internal() {
        begins += 1;
    }
    if reaper.enter_undo_block_internal() {
        begins += 1;
    }
    assert!(reaper.undoable_action_is_running());
    if reaper.leave_undo_block_internal() {
        ends += 1;
    }
    if reaper.leave_undo_block_internal() {
        ends += 1;
    }
    assert_eq!(begins, 1, "exactly one host begin-block call");
    assert_eq!(ends, 1, "exactly one host end-block call");
    assert!(!reaper.undoable_action_is_running());
}

#[test]
fn value_changes_are_recorded_for_the_main_section_only() {
    let mut reaper = Reaper::new();
    let id = CommandId::new(50);
    assert_eq!(reaper.find_last_action_value_change(id), None);
    reaper.record_action_value_change(
        SectionContext::OtherSection,
        id,
        ActionValueChange::AbsoluteLowRes(10),
    );
    assert_eq!(reaper.find_last_action_value_change(id), None);
    reaper.record_action_value_change(
        SectionContext::MainSection,
        id,
        ActionValueChange::AbsoluteLowRes(10),
    );
    assert_eq!(
        reaper.find_last_action_value_change(id),
        Some(ActionValueChange::AbsoluteLowRes(10))
    );
    // Upsert: a later event replaces the earlier one.
    reaper.record_action_value_change(
        SectionContext::MainSection,
        id,
        ActionValueChange::AbsoluteHighRes(12345),
    );
    assert_eq!(
        reaper.find_last_action_value_change(id),
        Some(ActionValueChange::AbsoluteHighRes(12345))
    );
}
