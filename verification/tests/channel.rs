use std::sync::atomic::{AtomicUsize, Ordering};
use std::sync::{Arc, Mutex};

use reaper_core::reaper::{Reaper, AUDIO_THREAD_TASK_CHANNEL_CAPACITY};
use reaper_core::session::{AudioHookHandle, OnAudioBufferArgs};
use reaper_core::task_channel::TaskChannelError;

fn pre_block() -> OnAudioBufferArgs {
    OnAudioBufferArgs { is_post: false, len: 512 }
}

fn post_block() -> OnAudioBufferArgs {
    OnAudioBufferArgs { is_post: true, len: 512 }
}

#[test]
fn the_task_channel_holds_five_hundred_tasks() {
    assert_eq!(AUDIO_THREAD_TASK_CHANNEL_CAPACITY, 500);
}

#[test]
fn enqueue_while_full_fails_and_keeps_order() {
    let mut reaper = Reaper::new();
    // Wake first so the enqueued tasks are not discarded: the adapter now
    // plays the host's part.
    let plan = reaper.wake_up().unwrap();
    reaper.complete_wake_up(AudioHookHandle(1), Vec::new()).unwrap();
    let mut adapter = plan.audio_hook;

    let executed: Arc<Mutex<Vec<usize>>> = Arc::new(Mutex::new(Vec::new()));
    for i in 0..AUDIO_THREAD_TASK_CHANNEL_CAPACITY {
        let log = Arc::clone(&executed);
        reaper
            .do_later_in_real_time_audio_thread_asap(move |_rt| {
                log.lock().unwrap().push(i);
            })
            .expect("the queue holds up to its capacity");
    }
    // The channel is at its capacity: the next enqueue fails immediately.
    let overflow = reaper.do_later_in_real_time_audio_thread_asap(|_rt| {});
    assert_eq!(overflow, Err(TaskChannelError::Full));
    assert_eq!(
        overflow.unwrap_err().message(),
        "audio thread task channel is full"
    );

    // The 500 queued tasks are unaffected and run in enqueue order, at
    // most one per pre-processing audio callback.
    for _ in 0..AUDIO_THREAD_TASK_CHANNEL_CAPACITY {
        adapter.call(pre_block());
    }
    let ran = executed.lock().unwrap().clone();
    let expected: Vec<usize> = (0..AUDIO_THREAD_TASK_CHANNEL_CAPACITY).collect();
    assert_eq!(ran, expected);
    // Nothing is left: another callback runs nothing.
    adapter.call(pre_block());
    assert_eq!(executed.lock().unwrap().len(), AUDIO_THREAD_TASK_CHANNEL_CAPACITY);
}

#[test]
fn adapter_runs_at_most_one_task_per_callback() {
    let mut reaper = Reaper::new();
    let plan = reaper.wake_up().unwrap();
    reaper.complete_wake_up(AudioHookHandle(1), Vec::new()).unwrap();
    let mut adapter = plan.audio_hook;

    let counter = Arc::new(AtomicUsize::new(0));
    for _ in 0..3 {
        let c = Arc::clone(&counter);
        reaper
            .do_later_in_real_time_audio_thread_asap(move |_rt| {
                c.fetch_add(1, Ordering::SeqCst);
            })
            .unwrap();
    }
    adapter.call(pre_block());
    assert_eq!(counter.load(Ordering::SeqCst), 1);
    // Post-processing invocations are ignored entirely.
    adapter.call(post_block());
    assert_eq!(counter.load(Ordering::SeqCst), 1);
    adapter.call(pre_block());
    adapter.call(pre_block());
    assert_eq!(counter.load(Ordering::SeqCst), 3);
}

#[test]
fn reactivation_discards_queued_tasks_without_running_them() {
    let mut reaper = Reaper::new();
    let counter = Arc::new(AtomicUsize::new(0));
    for _ in 0..3 {
        let c = Arc::clone(&counter);
        reaper
            .do_later_in_real_time_audio_thread_asap(move |_rt| {
                c.fetch_add(1, Ordering::SeqCst);
            })
            .expect("enqueuing while dormant succeeds until the queue fills");
    }
    // Waking drains the queue: every task accumulated while dormant is
    // dropped unexecuted, and the count to log equals the number enqueued.
    let plan = reaper.wake_up().unwrap();
    assert_eq!(plan.discarded_task_count, 3);
    assert_eq!(counter.load(Ordering::SeqCst), 0, "none of the stale tasks ran");
    // The adapter finds an empty queue afterwards.
    let mut adapter = plan.audio_hook;
    reaper.complete_wake_up(AudioHookHandle(1), Vec::new()).unwrap();
    adapter.call(pre_block());
    assert_eq!(counter.load(Ordering::SeqCst), 0);
}

#[test]
fn adapter_reset_reports_the_discard_count() {
    let mut reaper = Reaper::new();
    let plan = reaper.wake_up().unwrap();
    reaper.complete_wake_up(AudioHookHandle(1), Vec::new()).unwrap();
    let adapter = plan.audio_hook;
    for _ in 0..5 {
        reaper.do_later_in_real_time_audio_thread_asap(|_rt| {}).unwrap();
    }
    assert_eq!(adapter.reset(), 5);
    assert_eq!(adapter.reset(), 0);
}

#[test]
fn enqueue_fails_when_the_receiver_is_gone() {
    let mut reaper = Reaper::new();
    let plan = reaper.wake_up().unwrap();
    reaper.complete_wake_up(AudioHookHandle(1), Vec::new()).unwrap();
    // Dropping the adapter stands for a torn-down real-time side.
    drop(plan.audio_hook);
    let r = reaper.do_later_in_real_time_audio_thread_asap(|_rt| {});
    assert_eq!(r, Err(TaskChannelError::Disconnected));
    assert_eq!(r.unwrap_err().message(), "channel was disconnected");
}
