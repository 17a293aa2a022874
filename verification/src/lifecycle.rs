//! The exit signal and the one-way life of the program.

use vstd::prelude::*;
use crate::channel::{SendReceipt, Waited, send, wait_for_event};

verus! {

/// The signal sent over the lifecycle channel.
#[derive(Clone, Copy, Debug, PartialEq, Eq, Structural)]
pub enum LifecycleEvent {
    Exit,
}

/// Where the program stands between start and end.
#[derive(Clone, Copy, Debug, PartialEq, Eq, Structural)]
pub enum LifecycleState {
    Running,
    ExitRequested,
    Stopped,
}

/// How one bounded wait for the exit signal ended.
#[derive(Clone, Copy, Debug, PartialEq, Eq, Structural)]
pub enum WaitOutcome {
    /// Nothing arrived in time: the ordinary case.
    Timeout,
    /// An exit request arrived.
    Exit,
    /// Every sender of the lifecycle channel is gone.
    Disconnected,
}

/// What a controller did when it was asked to wait.
pub enum Wait {
    /// It waited on its lifecycle channel; this is the record.
    Made(Waited),
    /// The exit had been requested before: it did not wait.
    Known,
}

impl Wait {
    /// How the wait ended: as its record says, or with `Exit` where the
    /// exit was known before.
    pub open spec fn ended(self) -> WaitOutcome {
        match self {
            Wait::Made(waited) => waited.ended(),
            Wait::Known => WaitOutcome::Exit,
        }
    }

    /// How the wait ended.
    pub fn outcome(&self) -> (outcome: WaitOutcome)
        ensures
            outcome == self.ended(),
    {
        match self {
            Wait::Made(waited) => waited.outcome(),
            Wait::Known => WaitOutcome::Exit,
        }
    }
}

/// Whether `wait` is what a controller in state `state` does when it is
/// asked to wait `timeout_ms` milliseconds on `receiver`: while running it
/// waits there that long, and once the exit was requested it does not wait.
pub open spec fn wait_made(
    state: LifecycleState,
    receiver: flume::Receiver<LifecycleEvent>,
    timeout_ms: u32,
    wait: Wait,
) -> bool {
    match wait {
        Wait::Made(waited) => state == LifecycleState::Running && waited.receiver() == receiver
            && waited.timeout_ms() == timeout_ms,
        Wait::Known => state != LifecycleState::Running,
    }
}

impl WaitOutcome {
    /// Whether the outcome asks the program to end. A disconnected channel
    /// counts as an exit request.
    pub open spec fn asks_exit(self) -> bool {
        self != WaitOutcome::Timeout
    }

    #[verifier::when_used_as_spec(asks_exit)]
    pub fn requests_exit(self) -> (asks: bool)
        ensures
            asks == self.asks_exit(),
    {
        match self {
            WaitOutcome::Timeout => false,
            WaitOutcome::Exit => true,
            WaitOutcome::Disconnected => true,
        }
    }
}

impl LifecycleState {
    /// The state after an exit request: a running program becomes
    /// `ExitRequested`, any other state stays.
    pub open spec fn after_request(self) -> LifecycleState {
        if self == LifecycleState::Running {
            LifecycleState::ExitRequested
        } else {
            self
        }
    }

    /// The state after a wait that ended with `outcome`.
    pub open spec fn after_wait(self, outcome: WaitOutcome) -> LifecycleState {
        if outcome.asks_exit() {
            self.after_request()
        } else {
            self
        }
    }

    /// The state after teardown began: `ExitRequested` becomes `Stopped`,
    /// any other state stays.
    pub open spec fn after_teardown(self) -> LifecycleState {
        if self == LifecycleState::ExitRequested {
            LifecycleState::Stopped
        } else {
            self
        }
    }

    /// How far along the one-way path a state is.
    pub open spec fn rank(self) -> nat {
        match self {
            LifecycleState::Running => 0,
            LifecycleState::ExitRequested => 1,
            LifecycleState::Stopped => 2,
        }
    }

    /// The state after a wait that ended with `outcome`.
    pub fn observe(self, outcome: WaitOutcome) -> (next: LifecycleState)
        ensures
            next == self.after_wait(outcome),
    {
        match self {
            LifecycleState::Running => if outcome.requests_exit() {
                LifecycleState::ExitRequested
            } else {
                LifecycleState::Running
            },
            LifecycleState::ExitRequested => LifecycleState::ExitRequested,
            LifecycleState::Stopped => LifecycleState::Stopped,
        }
    }
}

/// A handle that any thread can use to ask the program to end.
pub struct ExitRequester {
    sender: flume::Sender<LifecycleEvent>,
}

impl ExitRequester {
    /// The sending end that the requests go out on.
    pub closed spec fn end(&self) -> flume::Sender<LifecycleEvent> {
        self.sender
    }

    /// A requester that sends on the given end of the lifecycle channel.
    pub fn new(sender: flume::Sender<LifecycleEvent>) -> (requester: ExitRequester)
        ensures
            requester.end() == sender,
    {
        ExitRequester { sender }
    }

    /// Sends an exit request on the requester's end of the lifecycle
    /// channel. The receipt tells whether the channel took it; it does not
    /// when the controller is gone, and then there is nothing left to
    /// stop. Calling it again is harmless: see
    /// [`law_exit_request_is_idempotent`].
    pub fn request_exit(&self) -> (receipt: SendReceipt<LifecycleEvent>)
        ensures
            receipt.sender() == self.end(),
            receipt.message() == LifecycleEvent::Exit,
    {
        send(&self.sender, LifecycleEvent::Exit)
    }

    /// Another requester for the same controller: it sends on the same end.
    pub fn duplicate(&self) -> (other: ExitRequester)
        ensures
            other.end() == self.end(),
    {
        ExitRequester { sender: self.sender.clone() }
    }
}

/// Owns the lifecycle channel and the state of the program's life.
pub struct LifecycleController {
    sender: flume::Sender<LifecycleEvent>,
    receiver: flume::Receiver<LifecycleEvent>,
    state: LifecycleState,
}

impl View for LifecycleController {
    type V = LifecycleState;

    closed spec fn view(&self) -> LifecycleState {
        self.state
    }
}

impl LifecycleController {
    /// The sending end of the lifecycle channel that the controller keeps.
    pub closed spec fn sender_end(&self) -> flume::Sender<LifecycleEvent> {
        self.sender
    }

    /// The receiving end of the lifecycle channel, on which the controller
    /// waits.
    pub closed spec fn receiver_end(&self) -> flume::Receiver<LifecycleEvent> {
        self.receiver
    }

    /// A controller in state `Running`, with a lifecycle channel of its own.
    pub fn new() -> (controller: LifecycleController)
        ensures
            controller@ == LifecycleState::Running,
    {
        let (sender, receiver) = flume::unbounded::<LifecycleEvent>();
        LifecycleController { sender, receiver, state: LifecycleState::Running }
    }

    /// A controller in state `Running` on the two ends of an existing
    /// lifecycle channel.
    pub fn from_channel(
        sender: flume::Sender<LifecycleEvent>,
        receiver: flume::Receiver<LifecycleEvent>,
    ) -> (controller: LifecycleController)
        ensures
            controller@ == LifecycleState::Running,
            controller.sender_end() == sender,
            controller.receiver_end() == receiver,
    {
        LifecycleController { sender, receiver, state: LifecycleState::Running }
    }

    pub fn state(&self) -> (state: LifecycleState)
        ensures
            state == self@,
    {
        self.state
    }

    /// A handle for another thread to request the exit with: it sends on
    /// the controller's own lifecycle channel.
    pub fn requester(&self) -> (requester: ExitRequester)
        ensures
            requester.end() == self.sender_end(),
    {
        ExitRequester { sender: self.sender.clone() }
    }

    /// One more sending end of the controller's lifecycle channel.
    pub fn sender(&self) -> (sender: flume::Sender<LifecycleEvent>)
        ensures
            sender == self.sender_end(),
    {
        self.sender.clone()
    }

    /// Requests the exit from the controller's own thread.
    pub fn request_exit(&mut self)
        ensures
            final(self)@ == old(self)@.after_request(),
            final(self).sender_end() == old(self).sender_end(),
            final(self).receiver_end() == old(self).receiver_end(),
    {
        self.state = self.state.observe(WaitOutcome::Exit);
    }

    /// Waits for the next exit request, at most `timeout_ms` milliseconds,
    /// on the controller's receiving end. Once an exit was requested the
    /// answer is known at once; the channel is only read while the program
    /// is running.
    pub fn wait(&mut self, timeout_ms: u32) -> (wait: Wait)
        ensures
            wait_made(old(self)@, old(self).receiver_end(), timeout_ms, wait),
            final(self)@ == old(self)@.after_wait(wait.ended()),
            final(self).sender_end() == old(self).sender_end(),
            final(self).receiver_end() == old(self).receiver_end(),
    {
        match self.state {
            LifecycleState::Running => {
                let waited = wait_for_event(&self.receiver, timeout_ms);
                self.state = self.state.observe(waited.outcome());
                Wait::Made(waited)
            },
            _ => Wait::Known,
        }
    }

    /// Marks the start of teardown. Returns whether the state moved from
    /// `ExitRequested` to `Stopped`.
    pub fn begin_teardown(&mut self) -> (moved: bool)
        ensures
            final(self)@ == old(self)@.after_teardown(),
            moved == (old(self)@ == LifecycleState::ExitRequested),
            final(self).sender_end() == old(self).sender_end(),
            final(self).receiver_end() == old(self).receiver_end(),
    {
        match self.state {
            LifecycleState::ExitRequested => {
                self.state = LifecycleState::Stopped;
                true
            },
            _ => false,
        }
    }
}

/// Requesting the exit twice, or from several callers, leaves the same
/// state as requesting it once.
pub proof fn law_exit_request_is_idempotent(state: LifecycleState, first: WaitOutcome, second: WaitOutcome)
    requires
        first.asks_exit(),
        second.asks_exit(),
    ensures
        state.after_request().after_request() == state.after_request(),
        state.after_wait(first).after_wait(second) == state.after_wait(first),
        state.after_wait(first) == state.after_request(),
{
}

/// No step leads back to `Running`: a request, a wait and the start of
/// teardown never lower a state's rank, and only a state of rank zero is
/// `Running`.
pub proof fn law_termination_is_one_way(state: LifecycleState, outcome: WaitOutcome)
    ensures
        state.rank() <= state.after_request().rank(),
        state.rank() <= state.after_wait(outcome).rank(),
        state.rank() <= state.after_teardown().rank(),
        state.rank() == 0 <==> state == LifecycleState::Running,
{
}

} // verus!
