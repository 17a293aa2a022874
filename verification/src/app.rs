//! The polling loop: sample, detect, broadcast, wait, and in the end drain.

use vstd::prelude::*;
use std::sync::Arc;
use crate::actor::{Actor, ActorHandle};
use crate::config::{Config, ConfigView, default_driver, default_format};
use crate::detector::{ChangeDetector, broadcasts, last_after, state_before};
use crate::channel::Completion;
use crate::dispatcher::{
    Attempt, Delivery, Dispatcher, SinkView, after_broadcast, all_awaited, attempts_made,
    fresh_sink, outcomes, report_admitted,
};
use crate::driver::{Driver, noop};
use crate::lifecycle::{
    ExitRequester, LifecycleController, LifecycleEvent, LifecycleState, Wait, WaitOutcome,
    wait_made,
};
use crate::song::{PlaybackState, PlaybackView, copy_state, playing};

verus! {

/// The poll interval of a new application, in milliseconds.
pub const DEFAULT_POLL_INTERVAL_MS: u32 = 1500;

/// Where the polling loop stands.
#[derive(Clone, Copy, Debug, PartialEq, Eq, Structural)]
pub enum Phase {
    /// Normal operation: the next step polls.
    Polling,
    /// An exit was seen: the next step shuts the sinks down.
    Draining,
    /// Nothing is left to do.
    Terminated,
}

impl Phase {
    /// The phase after a poll whose wait ended with `wait`.
    pub open spec fn after_wait(self, wait: WaitOutcome) -> Phase {
        if self == Phase::Polling && wait.asks_exit() {
            Phase::Draining
        } else {
            self
        }
    }

    /// The phase after a poll whose wait ended with `wait`: a polling loop
    /// that saw an exit request drains, anything else stays as it is.
    pub fn next(self, wait: WaitOutcome) -> (phase: Phase)
        ensures
            phase == self.after_wait(wait),
    {
        match self {
            Phase::Polling => if wait.requests_exit() {
                Phase::Draining
            } else {
                Phase::Polling
            },
            Phase::Draining => Phase::Draining,
            Phase::Terminated => Phase::Terminated,
        }
    }
}

/// What an [`App`] means: its phase, the state of its life, the state its
/// detector forwarded last, and its sinks.
#[verifier::ext_equal]
pub struct AppView {
    pub phase: Phase,
    pub lifecycle: LifecycleState,
    pub last: PlaybackView,
    pub sinks: Seq<SinkView>,
}

impl AppView {
    /// What holds of an application from the day it was built: it polls as
    /// long as it is running, and once it has terminated it is stopped and
    /// has no sinks.
    pub open spec fn coherent(self) -> bool {
        &&& self.lifecycle == LifecycleState::Running ==> self.phase == Phase::Polling
        &&& self.phase == Phase::Terminated ==> self.lifecycle == LifecycleState::Stopped
            && self.sinks.len() == 0
    }

    /// The application after one poll: `sample` was taken, `deliveries` is
    /// the report of its broadcast where it was a change, and the wait
    /// ended with `wait`.
    pub open spec fn after_poll(
        self,
        sample: PlaybackView,
        deliveries: Option<Seq<Delivery>>,
        wait: WaitOutcome,
    ) -> AppView {
        AppView {
            phase: self.phase.after_wait(wait),
            lifecycle: if wait.asks_exit() {
                self.lifecycle.after_wait(wait).after_teardown()
            } else {
                self.lifecycle
            },
            last: sample,
            sinks: match deliveries {
                Some(report) => after_broadcast(self.sinks, sample, report),
                None => self.sinks,
            },
        }
    }

    /// The application after its sinks were shut down.
    pub open spec fn after_drain(self) -> AppView {
        AppView {
            phase: Phase::Terminated,
            lifecycle: self.lifecycle.after_teardown(),
            last: self.last,
            sinks: Seq::empty(),
        }
    }
}

/// One step of the loop as its state sees it: a poll with the sample that
/// was taken, the report of its broadcast where it was a change, and the
/// outcome of its wait; or the draining of the sinks.
pub enum Move {
    Poll { sample: PlaybackView, deliveries: Option<Seq<Delivery>>, wait: WaitOutcome },
    Drain,
}

impl AppView {
    /// Whether the loop can make this move in this state. It polls only
    /// while polling, broadcasts exactly the samples that are a change, to
    /// the sinks as they stand, and is answered `Exit` at once where the
    /// exit was requested before; it drains only while draining. A
    /// terminated loop makes no move.
    pub open spec fn admits(self, step: Move) -> bool {
        match step {
            Move::Poll { sample, deliveries, wait } => {
                &&& self.phase == Phase::Polling
                &&& deliveries is Some <==> sample != self.last
                &&& deliveries is Some ==> report_admitted(self.sinks, deliveries->0)
                &&& self.lifecycle != LifecycleState::Running ==> wait == WaitOutcome::Exit
            },
            Move::Drain => self.phase == Phase::Draining,
        }
    }

    /// The application after one move.
    pub open spec fn after(self, step: Move) -> AppView {
        match step {
            Move::Poll { sample, deliveries, wait } => self.after_poll(sample, deliveries, wait),
            Move::Drain => self.after_drain(),
        }
    }

    /// The application after the moves, made in order.
    pub open spec fn after_all(self, moves: Seq<Move>) -> AppView
        decreases moves.len(),
    {
        if moves.len() == 0 {
            self
        } else {
            self.after_all(moves.drop_last()).after(moves.last())
        }
    }

    /// Whether the loop can make the moves in order, each in the state that
    /// the moves before it left.
    pub open spec fn admits_all(self, moves: Seq<Move>) -> bool
        decreases moves.len(),
    {
        moves.len() == 0 || (self.admits_all(moves.drop_last()) && self.after_all(
            moves.drop_last(),
        ).admits(moves.last()))
    }
}

/// The samples that the moves took, where every move is a poll.
pub open spec fn samples_of(moves: Seq<Move>) -> Seq<PlaybackView> {
    Seq::new(moves.len(), |i: int| moves[i]->sample)
}

/// Whether every move is a poll in which sink `k` took what was broadcast:
/// the exit was not seen before the last of them, and the sink's channel
/// stayed open.
pub open spec fn polls_reaching(moves: Seq<Move>, k: int) -> bool {
    forall|i: int|
        0 <= i < moves.len() ==> {
            &&& (#[trigger] moves[i]) is Poll
            &&& moves[i]->deliveries matches Some(report) ==> report[k] == Delivery::Delivered
        }
}

/// What one step of the loop did, with the records of the calls it made.
pub enum Step {
    /// A sample was taken. `attempts` holds what its broadcast did about
    /// each sink, where the sample was a change; `wait` is the wait that
    /// followed.
    Polled { sample: PlaybackState, attempts: Option<Vec<Attempt>>, wait: Wait },
    /// The sinks were shut down; `completions` holds the record of the wait
    /// for each sink's worker.
    Drained { completions: Vec<Completion> },
    /// The loop had terminated before: nothing was done.
    Finished,
}

/// What became of each sink in the broadcast of a poll, if it made one.
pub open spec fn deliveries_view(attempts: Option<Vec<Attempt>>) -> Option<Seq<Delivery>> {
    match attempts {
        Some(made) => Some(outcomes(made@)),
        None => None,
    }
}

impl Step {
    /// The move that the step made, if it made one.
    pub open spec fn as_move(self) -> Option<Move> {
        match self {
            Step::Polled { sample, attempts, wait } => Some(
                Move::Poll {
                    sample: playing(sample),
                    deliveries: deliveries_view(attempts),
                    wait: wait.ended(),
                },
            ),
            Step::Drained { completions } => Some(Move::Drain),
            Step::Finished => None,
        }
    }
}

/// Whether `step` is what the loop does in state `app`, with `receiver` as
/// the receiving end of its lifecycle channel and `interval` as its poll
/// interval.
///
/// While polling it takes a sample, sends it to the sinks as they stand
/// exactly when it is a change, and waits one interval on the lifecycle
/// channel, unless the exit was requested before. While draining it waits
/// for the worker of every sink. Once terminated it does nothing.
pub open spec fn step_made(
    app: AppView,
    receiver: flume::Receiver<LifecycleEvent>,
    interval: u32,
    step: Step,
) -> bool {
    match step {
        Step::Polled { sample, attempts, wait } => {
            &&& app.phase == Phase::Polling
            &&& attempts is Some <==> playing(sample) != app.last
            &&& attempts matches Some(made) ==> attempts_made(app.sinks, playing(sample), made@)
            &&& wait_made(app.lifecycle, receiver, interval, wait)
        },
        Step::Drained { completions } => app.phase == Phase::Draining && all_awaited(
            app.sinks,
            completions@,
        ),
        Step::Finished => app.phase == Phase::Terminated,
    }
}

/// The moves that the steps made, where none of them is `Finished`.
pub open spec fn moves_of(steps: Seq<Step>) -> Seq<Move> {
    Seq::new(steps.len(), |i: int| steps[i].as_move()->0)
}

/// Whether `steps` are what the loop does from state `app` on, step by
/// step: each is a step that the loop makes in the state that the steps
/// before it left, and none found the loop terminated.
pub open spec fn steps_made(
    app: AppView,
    receiver: flume::Receiver<LifecycleEvent>,
    interval: u32,
    steps: Seq<Step>,
) -> bool
    decreases steps.len(),
{
    steps.len() == 0 || {
        &&& steps_made(app, receiver, interval, steps.drop_last())
        &&& steps.last() !is Finished
        &&& step_made(
            app.after_all(moves_of(steps.drop_last())),
            receiver,
            interval,
            steps.last(),
        )
    }
}

/// The polling loop with all that it owns.
pub struct App {
    config: Arc<Config>,
    lifecycle: LifecycleController,
    dispatcher: Dispatcher,
    detector: ChangeDetector,
    driver: Box<dyn Driver>,
    duration_polling: u32,
    phase: Phase,
}

/// A helper object for creating the application.
pub struct AppBuilder {}

impl AppBuilder {
    /// Creates a new AppBuilder with the default configuration.
    pub fn new() -> Self {
        Self {  }
    }

    /// An application that polls, with the default configuration, a driver
    /// that finds nothing, no sinks, and the default poll interval.
    pub fn build(self) -> (app: App)
        ensures
            app@ == (AppView {
                phase: Phase::Polling,
                lifecycle: LifecycleState::Running,
                last: None,
                sinks: Seq::empty(),
            }),
            app.config_view() == (ConfigView {
                driver: default_driver(),
                song_format: default_format(),
            }),
            app.interval() == DEFAULT_POLL_INTERVAL_MS,
            app@.coherent(),
    {
        let app = App {
            config: Arc::new(Config::default()),
            lifecycle: LifecycleController::new(),
            dispatcher: Dispatcher::new(),
            detector: ChangeDetector::new(),
            driver: noop(),
            duration_polling: DEFAULT_POLL_INTERVAL_MS,
            phase: Phase::Polling,
        };
        assert(app@.sinks =~= Seq::empty());
        app
    }
}

impl View for App {
    type V = AppView;

    closed spec fn view(&self) -> AppView {
        AppView {
            phase: self.phase,
            lifecycle: self.lifecycle@,
            last: self.detector@,
            sinks: self.dispatcher@,
        }
    }
}

impl App {
    /// The configuration in use.
    pub closed spec fn config_view(&self) -> ConfigView {
        (*self.config)@
    }

    /// The poll interval in milliseconds.
    pub closed spec fn interval(&self) -> u32 {
        self.duration_polling
    }

    /// The sending end of the lifecycle channel on which the loop waits
    /// for the exit request.
    pub closed spec fn lifecycle_end(&self) -> flume::Sender<LifecycleEvent> {
        self.lifecycle.sender_end()
    }

    /// The receiving end of the lifecycle channel, on which the loop waits.
    pub closed spec fn lifecycle_receiver(&self) -> flume::Receiver<LifecycleEvent> {
        self.lifecycle.receiver_end()
    }

    /// The driver that the next poll asks.
    pub closed spec fn driver_in_use(&self) -> Box<dyn Driver> {
        self.driver
    }

    pub fn phase(&self) -> (phase: Phase)
        ensures
            phase == self@.phase,
    {
        self.phase
    }

    pub fn lifecycle_state(&self) -> (state: LifecycleState)
        ensures
            state == self@.lifecycle,
    {
        self.lifecycle.state()
    }

    /// The configuration, shared with the sinks.
    pub fn config(&self) -> (config: &Arc<Config>)
        ensures
            (**config)@ == self.config_view(),
    {
        &self.config
    }

    pub fn duration_polling(&self) -> (ms: u32)
        ensures
            ms == self.interval(),
    {
        self.duration_polling
    }

    /// Takes the configuration to run with.
    pub fn set_config(&mut self, config: Config)
        ensures
            final(self)@ == old(self)@,
            final(self).config_view() == config@,
            final(self).interval() == old(self).interval(),
            final(self).lifecycle_end() == old(self).lifecycle_end(),
            final(self).lifecycle_receiver() == old(self).lifecycle_receiver(),
            final(self).driver_in_use() == old(self).driver_in_use(),
    {
        self.config = Arc::new(config);
    }

    /// Takes the driver to sample with.
    pub fn set_driver(&mut self, driver: Box<dyn Driver>)
        ensures
            final(self)@ == old(self)@,
            final(self).config_view() == old(self).config_view(),
            final(self).interval() == old(self).interval(),
            final(self).lifecycle_end() == old(self).lifecycle_end(),
            final(self).lifecycle_receiver() == old(self).lifecycle_receiver(),
    {
        self.driver = driver;
    }

    /// Sets the poll interval in milliseconds.
    pub fn set_duration_polling(&mut self, ms: u32)
        ensures
            final(self)@ == old(self)@,
            final(self).config_view() == old(self).config_view(),
            final(self).interval() == ms,
            final(self).lifecycle_end() == old(self).lifecycle_end(),
            final(self).lifecycle_receiver() == old(self).lifecycle_receiver(),
            final(self).driver_in_use() == old(self).driver_in_use(),
    {
        self.duration_polling = ms;
    }

    /// A handle with which another thread, an interrupt handler or a sink
    /// can ask the loop to end: it sends on the loop's lifecycle channel.
    pub fn exit_requester(&self) -> (requester: ExitRequester)
        ensures
            requester.end() == self.lifecycle_end(),
    {
        self.lifecycle.requester()
    }

    /// One more sending end of the loop's lifecycle channel, for a sink
    /// that reports the wish to end by itself.
    pub fn lifecycle_sender(&self) -> (sender: flume::Sender<LifecycleEvent>)
        ensures
            sender == self.lifecycle_end(),
    {
        self.lifecycle.sender()
    }

    /// Asks the loop to end, from its own thread. The next poll sees it.
    pub fn request_exit(&mut self)
        ensures
            final(self)@ == (AppView {
                lifecycle: old(self)@.lifecycle.after_request(),
                ..old(self)@
            }),
            final(self).config_view() == old(self).config_view(),
            final(self).interval() == old(self).interval(),
            final(self).lifecycle_end() == old(self).lifecycle_end(),
            final(self).lifecycle_receiver() == old(self).lifecycle_receiver(),
            final(self).driver_in_use() == old(self).driver_in_use(),
    {
        self.lifecycle.request_exit();
    }

    /// Takes over a running sink, unless the loop has terminated: then the
    /// handle comes back.
    pub fn add_sink(&mut self, handle: ActorHandle<PlaybackState>) -> (refused: Option<
        ActorHandle<PlaybackState>,
    >)
        ensures
            old(self)@.phase == Phase::Terminated ==> refused == Some(handle) && final(self)@
                == old(self)@,
            old(self)@.phase != Phase::Terminated ==> refused is None && final(self)@ == (AppView {
                sinks: old(self)@.sinks.push(fresh_sink(handle)),
                ..old(self)@
            }),
            final(self).config_view() == old(self).config_view(),
            final(self).interval() == old(self).interval(),
            final(self).lifecycle_end() == old(self).lifecycle_end(),
            final(self).lifecycle_receiver() == old(self).lifecycle_receiver(),
            final(self).driver_in_use() == old(self).driver_in_use(),
    {
        match self.phase {
            Phase::Terminated => Some(handle),
            _ => {
                self.dispatcher.attach(handle);
                None
            },
        }
    }

    /// Starts a sink and takes over the handle that its start gave, unless
    /// the loop has terminated: then the sink comes back as it was.
    pub fn register<A: Actor<MessageType = PlaybackState>>(&mut self, sink: A) -> (refused: Option<A>)
        ensures
            old(self)@.phase == Phase::Terminated ==> refused == Some(sink) && final(self)@ == old(
                self,
            )@,
            old(self)@.phase != Phase::Terminated ==> refused is None && exists|
                handle: ActorHandle<PlaybackState>,
            |
                call_ensures(A::spawn, (sink,), handle) && final(self)@ == (AppView {
                    sinks: old(self)@.sinks.push(#[trigger] fresh_sink(handle)),
                    ..old(self)@
                }),
            final(self).config_view() == old(self).config_view(),
            final(self).interval() == old(self).interval(),
            final(self).lifecycle_end() == old(self).lifecycle_end(),
            final(self).lifecycle_receiver() == old(self).lifecycle_receiver(),
            final(self).driver_in_use() == old(self).driver_in_use(),
    {
        match self.phase {
            Phase::Terminated => Some(sink),
            _ => {
                self.dispatcher.register(sink);
                None
            },
        }
    }

    /// One step of the loop.
    ///
    /// While polling: asks the driver for a sample, broadcasts it where the
    /// detector finds a change, then waits one poll interval on the
    /// lifecycle channel for an exit request. A request, or a lifecycle
    /// channel without senders, starts the teardown and makes the loop
    /// drain; a plain timeout leaves it polling.
    ///
    /// While draining: shuts down every sink, waits for its worker, and
    /// terminates. No sample is taken any more.
    pub fn step(&mut self) -> (step: Step)
        ensures
            step_made(old(self)@, old(self).lifecycle_receiver(), old(self).interval(), step),
            old(self)@.phase != Phase::Terminated ==> step.as_move() is Some && old(self)@.admits(
                step.as_move()->0,
            ) && final(self)@ == old(self)@.after(step.as_move()->0),
            old(self)@.phase == Phase::Terminated ==> final(self)@ == old(self)@,
            old(self)@.phase != Phase::Polling ==> final(self).driver_in_use() == old(
                self,
            ).driver_in_use(),
            old(self)@.coherent() ==> final(self)@.coherent(),
            final(self).config_view() == old(self).config_view(),
            final(self).interval() == old(self).interval(),
            final(self).lifecycle_end() == old(self).lifecycle_end(),
            final(self).lifecycle_receiver() == old(self).lifecycle_receiver(),
    {
        match self.phase {
            Phase::Polling => {
                let sample = self.driver.fetch_song_info();
                let attempts = match self.detector.update(copy_state(&sample)) {
                    Some(state) => Some(self.dispatcher.broadcast(&state)),
                    None => None,
                };
                let wait = self.lifecycle.wait(self.duration_polling);
                let outcome = wait.outcome();
                self.phase = self.phase.next(outcome);
                if outcome.requests_exit() {
                    self.lifecycle.begin_teardown();
                }
                Step::Polled { sample, attempts, wait }
            },
            Phase::Draining => {
                self.lifecycle.begin_teardown();
                let completions = self.dispatcher.shutdown();
                self.phase = Phase::Terminated;
                assert(self@.sinks =~= Seq::empty());
                Step::Drained { completions }
            },
            Phase::Terminated => Step::Finished,
        }
    }

    /// Runs the loop for at most `max_steps` steps, and stops early once it
    /// has terminated. Returns the steps it made, in order, each with the
    /// records of its calls.
    pub fn run(&mut self, max_steps: usize) -> (steps: Vec<Step>)
        ensures
            steps_made(old(self)@, old(self).lifecycle_receiver(), old(self).interval(), steps@),
            old(self)@.admits_all(moves_of(steps@)),
            final(self)@ == old(self)@.after_all(moves_of(steps@)),
            steps@.len() <= max_steps,
            steps@.len() < max_steps ==> final(self)@.phase == Phase::Terminated,
            old(self)@.phase != Phase::Terminated && max_steps > 0 ==> steps@.len() > 0,
            old(self)@.phase == Phase::Draining && max_steps > 0 ==> steps@.len() == 1
                && final(self)@ == old(self)@.after_drain(),
            old(self)@.phase == Phase::Terminated ==> steps@.len() == 0,
            old(self)@.phase != Phase::Polling ==> final(self).driver_in_use() == old(
                self,
            ).driver_in_use(),
            old(self)@.coherent() ==> final(self)@.coherent(),
            final(self).config_view() == old(self).config_view(),
            final(self).interval() == old(self).interval(),
            final(self).lifecycle_end() == old(self).lifecycle_end(),
            final(self).lifecycle_receiver() == old(self).lifecycle_receiver(),
    {
        let ghost start = self@;
        let ghost receiver = self.lifecycle_receiver();
        let ghost interval = self.interval();
        let mut steps: Vec<Step> = Vec::new();
        assert(moves_of(steps@) =~= Seq::empty());
        while steps.len() < max_steps
            invariant
                steps@.len() <= max_steps,
                start == old(self)@,
                receiver == old(self).lifecycle_receiver(),
                interval == old(self).interval(),
                steps_made(start, receiver, interval, steps@),
                start.admits_all(moves_of(steps@)),
                self@ == start.after_all(moves_of(steps@)),
                start.phase == Phase::Draining && steps@.len() > 0 ==> steps@.len() == 1 && self@
                    == start.after_drain(),
                start.phase == Phase::Terminated ==> steps@.len() == 0,
                start.phase != Phase::Polling ==> self.driver_in_use() == old(self).driver_in_use(),
                start.phase != Phase::Polling ==> self@.phase != Phase::Polling,
                start.coherent() ==> self@.coherent(),
                self.config_view() == old(self).config_view(),
                self.interval() == old(self).interval(),
                self.lifecycle_end() == old(self).lifecycle_end(),
                self.lifecycle_receiver() == old(self).lifecycle_receiver(),
            decreases max_steps - steps@.len(),
        {
            match self.phase {
                Phase::Terminated => {
                    return steps;
                },
                _ => {},
            }
            let ghost before = steps@;
            let step = self.step();
            steps.push(step);
            proof {
                assert(steps@.drop_last() =~= before);
                assert(steps@.last() == step);
                assert(moves_of(steps@).drop_last() =~= moves_of(before));
                assert(moves_of(steps@).last() == step.as_move()->0);
            }
        }
        steps
    }
}

/// An exit request ends the polling within the poll that sees it: the loop
/// drains after a wait that asked for the exit, and goes on polling after a
/// plain timeout. Draining takes no sample: the state forwarded last stays.
pub proof fn law_exit_ends_polling(
    app: AppView,
    sample: PlaybackView,
    deliveries: Option<Seq<Delivery>>,
    wait: WaitOutcome,
)
    requires
        app.phase == Phase::Polling,
    ensures
        wait.asks_exit() ==> app.after_poll(sample, deliveries, wait).phase == Phase::Draining,
        !wait.asks_exit() ==> app.after_poll(sample, deliveries, wait).phase == Phase::Polling,
        app.after_drain().last == app.last,
        app.after_drain().phase == Phase::Terminated,
{
}

/// Polling and draining keep an application coherent.
pub proof fn law_steps_keep_coherence(
    app: AppView,
    sample: PlaybackView,
    deliveries: Option<Seq<Delivery>>,
    wait: WaitOutcome,
)
    requires
        app.coherent(),
    ensures
        app.phase == Phase::Polling ==> app.after_poll(sample, deliveries, wait).coherent(),
        app.phase == Phase::Draining ==> app.after_drain().coherent(),
{
}

/// Over any number of polls, a sink whose channel stays open receives one
/// state per run of equal consecutive samples, in order: exactly the
/// broadcasts of the detector, from the state it had forwarded last. The
/// number of runs is what [`crate::detector::law_broadcasts_count_runs`]
/// says of those broadcasts.
pub proof fn law_polls_deliver_once_per_run(app: AppView, moves: Seq<Move>, k: int)
    requires
        app.admits_all(moves),
        polls_reaching(moves, k),
        0 <= k < app.sinks.len(),
    ensures
        app.after_all(moves).sinks.len() == app.sinks.len(),
        app.after_all(moves).last == last_after(app.last, samples_of(moves)),
        app.after_all(moves).sinks[k].received == app.sinks[k].received + broadcasts(
            app.last,
            samples_of(moves),
        ),
    decreases moves.len(),
{
    let samples = samples_of(moves);
    if moves.len() == 0 {
        assert(app.sinks[k].received + broadcasts(app.last, samples) =~= app.sinks[k].received);
    } else {
        let earlier = moves.drop_last();
        let before = app.after_all(earlier);
        assert(polls_reaching(earlier, k)) by {
            assert forall|i: int| 0 <= i < earlier.len() implies {
                &&& (#[trigger] earlier[i]) is Poll
                &&& earlier[i]->deliveries matches Some(report) ==> report[k] == Delivery::Delivered
            } by {
                assert(earlier[i] == moves[i]);
            }
        }
        law_polls_deliver_once_per_run(app, earlier, k);
        assert(samples.drop_last() =~= samples_of(earlier));
        assert(moves.last() == moves[moves.len() - 1]);
        assert(samples.last() == moves.last()->sample);
        assert(before.last == state_before(app.last, samples, samples.len() - 1));
        assert(before.admits(moves.last()));
        let logged = app.sinks[k].received + broadcasts(app.last, samples_of(earlier));
        if moves.last()->deliveries is Some {
            assert(logged.push(samples.last()) =~= app.sinks[k].received + broadcasts(
                app.last,
                samples_of(earlier),
            ).push(samples.last()));
        }
    }
}

} // verus!
