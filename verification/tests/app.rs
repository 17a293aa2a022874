use current_song::actor::ActorHandle;
use current_song::app::{App, AppBuilder, Phase, Step, DEFAULT_POLL_INTERVAL_MS};
use current_song::config::Config;
use current_song::dispatcher::{deliveries, signalled, Attempt, Delivery};
use current_song::driver::Driver;
use current_song::lifecycle::{LifecycleState, WaitOutcome};
use current_song::song::{PlaybackState, SongInfo};
use std::sync::atomic::{AtomicUsize, Ordering};
use std::sync::Arc;

fn track(artist: &str, title: &str) -> PlaybackState {
    Some(SongInfo::new(artist.to_string(), title.to_string()))
}

struct Script {
    samples: Vec<PlaybackState>,
    calls: Arc<AtomicUsize>,
}

impl Driver for Script {
    fn fetch_song_info(&mut self) -> Option<SongInfo> {
        let call = self.calls.fetch_add(1, Ordering::SeqCst);
        if call < self.samples.len() {
            self.samples[call].clone()
        } else {
            None
        }
    }
}

struct Probe {
    messages: flume::Receiver<PlaybackState>,
    done: flume::Sender<()>,
}

fn sink() -> (ActorHandle<PlaybackState>, Probe) {
    let (sender, messages) = flume::unbounded();
    let (done, done_receiver) = flume::unbounded();
    (ActorHandle::new(sender, done_receiver), Probe { messages, done })
}

fn report(attempts: &Option<Vec<Attempt>>) -> Option<Vec<Delivery>> {
    attempts.as_ref().map(deliveries)
}

fn scripted(samples: Vec<PlaybackState>) -> (App, Arc<AtomicUsize>) {
    let calls = Arc::new(AtomicUsize::new(0));
    let mut app = AppBuilder::new().build();
    app.set_driver(Box::new(Script { samples, calls: calls.clone() }));
    app.set_duration_polling(1);
    (app, calls)
}

#[test]
fn a_built_app_polls_with_the_defaults() {
    let app = AppBuilder::new().build();
    assert_eq!(app.phase(), Phase::Polling);
    assert_eq!(app.lifecycle_state(), LifecycleState::Running);
    assert_eq!(app.duration_polling(), 1500);
    assert_eq!(DEFAULT_POLL_INTERVAL_MS, 1500);
    assert_eq!(app.config().driver_name(), "spotify-desktop");
    assert_eq!(app.config().song_format(), "\u{266b} {artist} - {title}");
}

#[test]
fn the_settings_can_be_replaced() {
    let mut app = AppBuilder::new().build();
    app.set_config(Config::new("other".to_string(), "{title}".to_string()));
    app.set_duration_polling(20);
    assert_eq!(app.config().driver_name(), "other");
    assert_eq!(app.config().song_format(), "{title}");
    assert_eq!(app.duration_polling(), 20);
    assert_eq!(app.phase(), Phase::Polling);
}

#[test]
fn the_default_driver_finds_nothing_and_nothing_is_broadcast() {
    let mut app = AppBuilder::new().build();
    app.set_duration_polling(1);
    let (handle, probe) = sink();
    assert!(app.add_sink(handle).is_none());
    match app.step() {
        Step::Polled { sample, attempts, wait } => {
            assert_eq!(sample, None);
            assert!(attempts.is_none());
            assert_eq!(wait.outcome(), WaitOutcome::Timeout);
        }
        _ => panic!("unexpected step"),
    }
    assert!(probe.messages.is_empty());
    assert_eq!(app.phase(), Phase::Polling);
}

#[test]
fn a_change_is_broadcast_and_a_repeat_is_not() {
    let (mut app, calls) = scripted(vec![track("A", "T1"), track("A", "T1"), None]);
    let (handle, probe) = sink();
    app.add_sink(handle);
    match app.step() {
        Step::Polled { sample, attempts, wait } => {
            assert_eq!(sample, track("A", "T1"));
            assert_eq!(report(&attempts), Some(vec![Delivery::Delivered]));
            assert_eq!(wait.outcome(), WaitOutcome::Timeout);
        }
        _ => panic!("unexpected step"),
    }
    match app.step() {
        Step::Polled { sample, attempts, .. } => {
            assert_eq!(sample, track("A", "T1"));
            assert_eq!(report(&attempts), None);
        }
        _ => panic!("unexpected step"),
    }
    match app.step() {
        Step::Polled { sample, attempts, .. } => {
            assert_eq!(sample, None);
            assert_eq!(report(&attempts), Some(vec![Delivery::Delivered]));
        }
        _ => panic!("unexpected step"),
    }
    assert_eq!(calls.load(Ordering::SeqCst), 3);
    let got: Vec<PlaybackState> = probe.messages.try_iter().collect();
    assert_eq!(got, vec![track("A", "T1"), None]);
}

#[test]
fn the_scenario_of_five_samples_reaches_the_sink_as_three_messages() {
    let samples = vec![None, track("A", "T1"), track("A", "T1"), track("B", "T2"), None];
    let (mut app, _calls) = scripted(samples);
    let (handle, probe) = sink();
    app.add_sink(handle);
    assert_eq!(app.run(5).len(), 5);
    assert_eq!(app.phase(), Phase::Polling);
    let got: Vec<PlaybackState> = probe.messages.try_iter().collect();
    assert_eq!(got, vec![track("A", "T1"), track("B", "T2"), None]);
}

#[test]
fn an_exit_request_drains_within_one_poll_and_no_sample_follows() {
    let (mut app, calls) = scripted(vec![track("A", "T1"), track("B", "T2")]);
    app.set_duration_polling(60_000);
    let (handle, probe) = sink();
    app.add_sink(handle);
    assert!(app.exit_requester().request_exit().accepted());
    match app.step() {
        Step::Polled { sample, wait, .. } => {
            assert_eq!(sample, track("A", "T1"));
            assert_eq!(wait.outcome(), WaitOutcome::Exit);
        }
        _ => panic!("unexpected step"),
    }
    assert_eq!(app.phase(), Phase::Draining);
    assert_eq!(app.lifecycle_state(), LifecycleState::Stopped);
    assert_eq!(calls.load(Ordering::SeqCst), 1);
    probe.done.send(()).unwrap();
    match app.step() {
        Step::Drained { completions } => assert_eq!(signalled(&completions), vec![true]),
        _ => panic!("unexpected step"),
    }
    assert_eq!(app.phase(), Phase::Terminated);
    assert!(matches!(app.step(), Step::Finished));
    assert_eq!(calls.load(Ordering::SeqCst), 1);
    assert_eq!(probe.messages.recv(), Ok(track("A", "T1")));
    assert_eq!(probe.messages.recv(), Err(flume::RecvError::Disconnected));
}

#[test]
fn the_window_sender_ends_the_loop_as_an_interrupt_does() {
    let (mut app, _calls) = scripted(Vec::new());
    app.set_duration_polling(60_000);
    app.lifecycle_sender().send(current_song::lifecycle::LifecycleEvent::Exit).unwrap();
    assert_eq!(app.run(10).len(), 2);
    assert_eq!(app.phase(), Phase::Terminated);
    assert_eq!(app.lifecycle_state(), LifecycleState::Stopped);
}

#[test]
fn a_request_from_the_own_thread_is_seen_by_the_next_poll() {
    let (mut app, calls) = scripted(Vec::new());
    app.set_duration_polling(60_000);
    app.request_exit();
    assert_eq!(app.phase(), Phase::Polling);
    assert_eq!(app.lifecycle_state(), LifecycleState::ExitRequested);
    assert_eq!(app.run(usize::MAX).len(), 2);
    assert_eq!(app.phase(), Phase::Terminated);
    assert_eq!(calls.load(Ordering::SeqCst), 1);
}

#[test]
fn run_from_draining_takes_the_one_step_that_drains() {
    let (mut app, calls) = scripted(vec![track("A", "T1")]);
    let (handle, probe) = sink();
    app.add_sink(handle);
    app.request_exit();
    assert!(matches!(app.step(), Step::Polled { .. }));
    assert_eq!(app.phase(), Phase::Draining);
    drop(probe.done);
    assert_eq!(app.run(4).len(), 1);
    assert_eq!(app.phase(), Phase::Terminated);
    assert_eq!(calls.load(Ordering::SeqCst), 1);
    assert_eq!(probe.messages.recv(), Ok(track("A", "T1")));
    assert_eq!(probe.messages.recv(), Err(flume::RecvError::Disconnected));
}

#[test]
fn run_takes_a_step_whenever_it_may() {
    let (mut app, calls) = scripted(Vec::new());
    assert_eq!(app.run(1).len(), 1);
    assert_eq!(calls.load(Ordering::SeqCst), 1);
    assert_eq!(app.phase(), Phase::Polling);
}

#[test]
fn run_hands_back_the_steps_it_made() {
    let (mut app, _calls) = scripted(vec![track("A", "T1")]);
    app.set_duration_polling(60_000);
    let (handle, probe) = sink();
    app.add_sink(handle);
    app.request_exit();
    drop(probe.done);
    let steps = app.run(10);
    assert_eq!(steps.len(), 2);
    match &steps[0] {
        Step::Polled { sample, attempts, wait } => {
            assert_eq!(*sample, track("A", "T1"));
            assert_eq!(report(attempts), Some(vec![Delivery::Delivered]));
            assert_eq!(wait.outcome(), WaitOutcome::Exit);
        }
        _ => panic!("unexpected step"),
    }
    match &steps[1] {
        Step::Drained { completions } => assert_eq!(signalled(completions), vec![false]),
        _ => panic!("unexpected step"),
    }
}

#[test]
fn run_stops_after_its_budget() {
    let (mut app, calls) = scripted(Vec::new());
    assert_eq!(app.run(0).len(), 0);
    assert_eq!(calls.load(Ordering::SeqCst), 0);
    assert_eq!(app.run(3).len(), 3);
    assert_eq!(calls.load(Ordering::SeqCst), 3);
    assert_eq!(app.phase(), Phase::Polling);
}

#[test]
fn a_terminated_app_does_nothing_and_takes_no_sink() {
    let (mut app, calls) = scripted(Vec::new());
    app.request_exit();
    app.run(2);
    assert_eq!(app.phase(), Phase::Terminated);
    assert_eq!(app.run(5).len(), 0);
    assert_eq!(calls.load(Ordering::SeqCst), 1);
    let (handle, _probe) = sink();
    assert!(app.add_sink(handle).is_some());
}

#[test]
fn a_sink_that_stopped_does_not_end_the_loop() {
    let (mut app, _calls) = scripted(vec![track("A", "1"), track("B", "2")]);
    let (dead, dead_probe) = sink();
    let (live, live_probe) = sink();
    app.add_sink(dead);
    app.add_sink(live);
    drop(dead_probe);
    match app.step() {
        Step::Polled { attempts, .. } => {
            assert_eq!(report(&attempts), Some(vec![Delivery::Stopped, Delivery::Delivered]));
        }
        _ => panic!("unexpected step"),
    }
    match app.step() {
        Step::Polled { attempts, .. } => {
            assert_eq!(report(&attempts), Some(vec![Delivery::Skipped, Delivery::Delivered]));
        }
        _ => panic!("unexpected step"),
    }
    assert_eq!(app.phase(), Phase::Polling);
    assert_eq!(live_probe.messages.len(), 2);
}

#[test]
fn phase_follows_the_wait() {
    assert_eq!(Phase::Polling.next(WaitOutcome::Timeout), Phase::Polling);
    assert_eq!(Phase::Polling.next(WaitOutcome::Exit), Phase::Draining);
    assert_eq!(Phase::Polling.next(WaitOutcome::Disconnected), Phase::Draining);
    assert_eq!(Phase::Draining.next(WaitOutcome::Timeout), Phase::Draining);
    assert_eq!(Phase::Terminated.next(WaitOutcome::Exit), Phase::Terminated);
}
