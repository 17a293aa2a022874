//! Fan-out of one state to every registered sink.

use vstd::prelude::*;
use crate::actor::{Actor, ActorHandle};
use crate::channel::{Completion, SendReceipt, send, wait_for_completion};
use crate::song::{PlaybackState, PlaybackView, copy_state, playing};

verus! {

/// What became of one sink in one broadcast.
#[derive(Clone, Copy, Debug, PartialEq, Eq, Structural)]
pub enum Delivery {
    /// The sink's channel took the state.
    Delivered,
    /// The sink's channel was closed: the sink has stopped.
    Stopped,
    /// The sink had stopped before and was left out.
    Skipped,
}

impl Delivery {
    /// The delivery that a live sink's channel decides: `Delivered` when it
    /// took the message, `Stopped` when it did not.
    pub fn of_send(accepted: bool) -> (delivery: Delivery)
        ensures
            delivery == if accepted {
                Delivery::Delivered
            } else {
                Delivery::Stopped
            },
    {
        if accepted {
            Delivery::Delivered
        } else {
            Delivery::Stopped
        }
    }
}

/// What a broadcast did about one sink: it sent, and holds the receipt, or
/// it left the sink out.
pub enum Attempt {
    Tried(SendReceipt<PlaybackState>),
    Skipped,
}

impl Attempt {
    /// What became of the sink in this attempt.
    pub open spec fn outcome(self) -> Delivery {
        match self {
            Attempt::Tried(receipt) => if receipt.taken() {
                Delivery::Delivered
            } else {
                Delivery::Stopped
            },
            Attempt::Skipped => Delivery::Skipped,
        }
    }

    /// What became of the sink in this attempt.
    pub fn delivery(&self) -> (delivery: Delivery)
        ensures
            delivery == self.outcome(),
    {
        match self {
            Attempt::Tried(receipt) => Delivery::of_send(receipt.accepted()),
            Attempt::Skipped => Delivery::Skipped,
        }
    }
}

/// What became of each sink in the attempts of one broadcast.
pub open spec fn outcomes(attempts: Seq<Attempt>) -> Seq<Delivery> {
    Seq::new(attempts.len(), |i: int| attempts[i].outcome())
}

/// What became of each sink in the attempts of one broadcast.
pub fn deliveries(attempts: &Vec<Attempt>) -> (report: Vec<Delivery>)
    ensures
        report@ == outcomes(attempts@),
{
    let mut report: Vec<Delivery> = Vec::new();
    let mut i: usize = 0;
    while i < attempts.len()
        invariant
            i <= attempts.len(),
            report@ == outcomes(attempts@.take(i as int)),
        decreases attempts.len() - i,
    {
        report.push(attempts[i].delivery());
        assert(report@ =~= outcomes(attempts@.take(i as int + 1)));
        i = i + 1;
    }
    assert(attempts@.take(attempts.len() as int) =~= attempts@);
    report
}

/// Whether each worker signalled its completion, for the waits of one
/// shutdown.
pub open spec fn signals(completions: Seq<Completion>) -> Seq<bool> {
    Seq::new(completions.len(), |i: int| completions[i].was_signalled())
}

/// Whether each worker signalled its completion, for the waits of one
/// shutdown.
pub fn signalled(completions: &Vec<Completion>) -> (flags: Vec<bool>)
    ensures
        flags@ == signals(completions@),
{
    let mut flags: Vec<bool> = Vec::new();
    let mut i: usize = 0;
    while i < completions.len()
        invariant
            i <= completions.len(),
            flags@ == signals(completions@.take(i as int)),
        decreases completions.len() - i,
    {
        flags.push(completions[i].signalled());
        assert(flags@ =~= signals(completions@.take(i as int + 1)));
        i = i + 1;
    }
    assert(completions@.take(completions.len() as int) =~= completions@);
    flags
}

/// What the dispatcher knows of one sink: the two channel ends of its
/// handle, whether it is still live, and every state its channel took, in
/// order.
#[verifier::ext_equal]
pub struct SinkView {
    pub sender: flume::Sender<PlaybackState>,
    pub done: flume::Receiver<()>,
    pub live: bool,
    pub received: Seq<PlaybackView>,
}

/// A sink as it is when the dispatcher takes over its handle: live, with
/// nothing received.
pub open spec fn fresh_sink(handle: ActorHandle<PlaybackState>) -> SinkView {
    SinkView { sender: handle.sender, done: handle.done, live: true, received: Seq::empty() }
}

/// Whether a broadcast can report `delivery` for `sink`: a stopped sink is
/// skipped, a live one is tried.
pub open spec fn admits(sink: SinkView, delivery: Delivery) -> bool {
    sink.live == (delivery != Delivery::Skipped)
}

/// Whether `attempt` is what a broadcast of `state` does about `sink`: a
/// stopped sink is skipped, and to a live one the state is sent over the
/// sink's own sending end.
pub open spec fn attempt_made(sink: SinkView, state: PlaybackView, attempt: Attempt) -> bool {
    match attempt {
        Attempt::Tried(receipt) => sink.live && receipt.sender() == sink.sender && playing(
            receipt.message(),
        ) == state,
        Attempt::Skipped => !sink.live,
    }
}

/// One sink after a broadcast of `state` that ended in `delivery` for it.
pub open spec fn sink_after(sink: SinkView, state: PlaybackView, delivery: Delivery) -> SinkView {
    match delivery {
        Delivery::Delivered => SinkView { received: sink.received.push(state), ..sink },
        Delivery::Stopped => SinkView { live: false, ..sink },
        Delivery::Skipped => sink,
    }
}

/// Whether `report` can be the report of a broadcast to `sinks`.
pub open spec fn report_admitted(sinks: Seq<SinkView>, report: Seq<Delivery>) -> bool {
    &&& report.len() == sinks.len()
    &&& forall|i: int| 0 <= i < sinks.len() ==> admits(#[trigger] sinks[i], report[i])
}

/// Whether `attempts` are what a broadcast of `state` to `sinks` does, sink
/// by sink.
pub open spec fn attempts_made(
    sinks: Seq<SinkView>,
    state: PlaybackView,
    attempts: Seq<Attempt>,
) -> bool {
    &&& attempts.len() == sinks.len()
    &&& forall|i: int|
        0 <= i < sinks.len() ==> attempt_made(sinks[i], state, #[trigger] attempts[i])
}

/// All sinks after a broadcast of `state` with the given report.
pub open spec fn after_broadcast(
    sinks: Seq<SinkView>,
    state: PlaybackView,
    report: Seq<Delivery>,
) -> Seq<SinkView> {
    Seq::new(sinks.len(), |i: int| sink_after(sinks[i], state, report[i]))
}

/// Whether `completions` are the waits of a shutdown of `sinks`: one per
/// sink, in the order of registration, each made on the completion channel
/// of its sink.
pub open spec fn all_awaited(sinks: Seq<SinkView>, completions: Seq<Completion>) -> bool {
    &&& completions.len() == sinks.len()
    &&& forall|i: int| 0 <= i < sinks.len() ==> (#[trigger] completions[i]).token() == sinks[i].done
}

struct Slot {
    handle: ActorHandle<PlaybackState>,
    live: bool,
    received: Ghost<Seq<PlaybackView>>,
}

impl Slot {
    spec fn view(&self) -> SinkView {
        SinkView {
            sender: self.handle.sender,
            done: self.handle.done,
            live: self.live,
            received: self.received@,
        }
    }
}

/// Owns the handles of all registered sinks.
pub struct Dispatcher {
    sinks: Vec<Slot>,
}

impl View for Dispatcher {
    type V = Seq<SinkView>;

    /// The sinks in the order of their registration.
    closed spec fn view(&self) -> Seq<SinkView> {
        Seq::new(self.sinks@.len(), |i: int| self.sinks@[i].view())
    }
}

impl Dispatcher {
    /// A dispatcher without sinks.
    pub fn new() -> (dispatcher: Dispatcher)
        ensures
            dispatcher@.len() == 0,
    {
        Dispatcher { sinks: Vec::new() }
    }

    /// The number of registered sinks.
    pub fn sink_count(&self) -> (count: usize)
        ensures
            count == self@.len(),
    {
        self.sinks.len()
    }

    /// Whether there is a sink with the given number and it is still live.
    pub fn is_live(&self, sink: usize) -> (live: bool)
        ensures
            live == (sink < self@.len() && self@[sink as int].live),
    {
        sink < self.sinks.len() && self.sinks[sink].live
    }

    /// Takes over a running sink. It is live and has received nothing; its
    /// number, which is returned, is its place in every report.
    pub fn attach(&mut self, handle: ActorHandle<PlaybackState>) -> (sink: usize)
        ensures
            sink == old(self)@.len(),
            final(self)@ == old(self)@.push(fresh_sink(handle)),
    {
        let sink = self.sinks.len();
        self.sinks.push(Slot { handle, live: true, received: Ghost(Seq::empty()) });
        assert(self@ =~= old(self)@.push(fresh_sink(handle)));
        sink
    }

    /// Starts a sink and takes over the handle that its start gave.
    pub fn register<A: Actor<MessageType = PlaybackState>>(&mut self, sink: A) -> (number: usize)
        ensures
            number == old(self)@.len(),
            exists|handle: ActorHandle<PlaybackState>|
                call_ensures(A::spawn, (sink,), handle) && final(self)@ == old(self)@.push(
                    #[trigger] fresh_sink(handle),
                ),
    {
        let handle = sink.spawn();
        self.attach(handle)
    }

    /// Sends a copy of `state` to every live sink, once, over the sink's
    /// own channel, in the order of registration. A sink whose channel is
    /// closed is reported as stopped and left out from then on; the others
    /// are served all the same.
    pub fn broadcast(&mut self, state: &PlaybackState) -> (attempts: Vec<Attempt>)
        ensures
            attempts_made(old(self)@, playing(*state), attempts@),
            report_admitted(old(self)@, outcomes(attempts@)),
            final(self)@ == after_broadcast(old(self)@, playing(*state), outcomes(attempts@)),
    {
        let ghost before = self@;
        let ghost shown = playing(*state);
        let mut attempts: Vec<Attempt> = Vec::new();
        let mut i: usize = 0;
        while i < self.sinks.len()
            invariant
                i <= self.sinks.len(),
                self.sinks@.len() == before.len(),
                attempts@.len() == i,
                shown == playing(*state),
                forall|k: int|
                    0 <= k < i ==> attempt_made(before[k], shown, #[trigger] attempts@[k]),
                forall|k: int|
                    0 <= k < i ==> self.sinks@[k].view() == sink_after(
                        #[trigger] before[k],
                        shown,
                        attempts@[k].outcome(),
                    ),
                forall|k: int| i <= k < before.len() ==> self.sinks@[k].view() == #[trigger] before[k],
            decreases self.sinks.len() - i,
        {
            let ghost entry = self.sinks@;
            let attempt = if self.sinks[i].live {
                Attempt::Tried(send(&self.sinks[i].handle.sender, copy_state(state)))
            } else {
                Attempt::Skipped
            };
            match attempt.delivery() {
                Delivery::Delivered => {
                    let ghost log = self.sinks[i as int].received@.push(shown);
                    self.sinks[i].received = Ghost(log);
                },
                Delivery::Stopped => {
                    self.sinks[i].live = false;
                },
                Delivery::Skipped => {},
            }
            proof {
                assert(self.sinks@.len() == entry.len());
                assert(attempt_made(entry[i as int].view(), shown, attempt));
                assert(self.sinks@[i as int].view() == sink_after(
                    entry[i as int].view(),
                    shown,
                    attempt.outcome(),
                ));
                assert(forall|k: int|
                    0 <= k < entry.len() && k != i ==> self.sinks@[k] == #[trigger] entry[k]);
            }
            attempts.push(attempt);
            i = i + 1;
        }
        assert(self@ =~= after_broadcast(before, shown, outcomes(attempts@)));
        attempts
    }

    /// Closes the delivery channel of every sink, then waits on the
    /// completion channel of each for its worker to finish. The dispatcher
    /// is left without sinks. The report holds the record of each wait, one
    /// per sink that was registered, in the order of registration.
    pub fn shutdown(&mut self) -> (completions: Vec<Completion>)
        ensures
            final(self)@.len() == 0,
            all_awaited(old(self)@, completions@),
    {
        let ghost before = self@;
        let mut tokens: Vec<flume::Receiver<()>> = Vec::new();
        while self.sinks.len() > 0
            invariant
                tokens@.len() + self.sinks@.len() == before.len(),
                forall|k: int|
                    0 <= k < self.sinks@.len() ==> self.sinks@[k].view() == #[trigger] before[k],
                forall|k: int|
                    0 <= k < tokens@.len() ==> #[trigger] tokens@[k] == before[before.len() - 1
                        - k].done,
            decreases self.sinks@.len(),
        {
            let ghost open = self.sinks@;
            match self.sinks.pop() {
                Some(slot) => {
                    assert(slot.view() == before[open.len() - 1]);
                    tokens.push(slot.handle.close());
                },
                None => {},
            }
        }
        let mut completions: Vec<Completion> = Vec::new();
        while tokens.len() > 0
            invariant
                tokens@.len() + completions@.len() == before.len(),
                forall|k: int|
                    0 <= k < tokens@.len() ==> #[trigger] tokens@[k] == before[before.len() - 1
                        - k].done,
                forall|k: int|
                    0 <= k < completions@.len() ==> (#[trigger] completions@[k]).token()
                        == before[k].done,
            decreases tokens@.len(),
        {
            let ghost waiting = tokens@;
            match tokens.pop() {
                Some(done) => {
                    assert(done == waiting[waiting.len() - 1]);
                    completions.push(wait_for_completion(&done));
                },
                None => {},
            }
        }
        completions
    }
}

/// One broadcast reaches each sink at most once: a sink whose channel took
/// the state has received exactly that one state more, any other sink has
/// received what it had. Every live sink is tried, whatever the number of
/// sinks and whatever became of the others.
pub proof fn law_broadcast_reaches_each_sink_once(
    sinks: Seq<SinkView>,
    state: PlaybackView,
    report: Seq<Delivery>,
    i: int,
)
    requires
        report_admitted(sinks, report),
        0 <= i < sinks.len(),
    ensures
        sinks[i].live ==> report[i] != Delivery::Skipped,
        report[i] == Delivery::Delivered ==> after_broadcast(sinks, state, report)[i].received
            == sinks[i].received.push(state),
        report[i] != Delivery::Delivered ==> after_broadcast(sinks, state, report)[i].received
            == sinks[i].received,
        after_broadcast(sinks, state, report).len() == sinks.len(),
{
}

/// Fan-out does not deduplicate: a sink whose channel took the same state
/// in two broadcasts in a row has received it twice.
pub proof fn law_fanout_does_not_deduplicate(
    sinks: Seq<SinkView>,
    state: PlaybackView,
    first: Seq<Delivery>,
    second: Seq<Delivery>,
    i: int,
)
    requires
        report_admitted(sinks, first),
        report_admitted(after_broadcast(sinks, state, first), second),
        0 <= i < sinks.len(),
        first[i] == Delivery::Delivered,
        second[i] == Delivery::Delivered,
    ensures
        after_broadcast(after_broadcast(sinks, state, first), state, second)[i].received
            == sinks[i].received.push(state).push(state),
{
}

/// A sink that fails does not touch the others: what a broadcast does to
/// one sink depends on that sink's own delivery alone.
pub proof fn law_failure_is_isolated(
    sinks: Seq<SinkView>,
    state: PlaybackView,
    one: Seq<Delivery>,
    other: Seq<Delivery>,
    i: int,
)
    requires
        report_admitted(sinks, one),
        report_admitted(sinks, other),
        0 <= i < sinks.len(),
        one[i] == other[i],
    ensures
        after_broadcast(sinks, state, one)[i] == after_broadcast(sinks, state, other)[i],
{
}

/// A sink that has stopped is left out of every later broadcast: it stays
/// stopped and receives nothing more.
pub proof fn law_stopped_sink_is_left_out(
    sinks: Seq<SinkView>,
    state: PlaybackView,
    report: Seq<Delivery>,
    i: int,
)
    requires
        report_admitted(sinks, report),
        0 <= i < sinks.len(),
        !sinks[i].live,
    ensures
        report[i] == Delivery::Skipped,
        after_broadcast(sinks, state, report)[i] == sinks[i],
{
}

/// A dispatcher without sinks, as one is after shutdown, delivers to
/// nobody.
pub proof fn law_no_delivery_without_sinks(
    sinks: Seq<SinkView>,
    state: PlaybackView,
    report: Seq<Delivery>,
)
    requires
        sinks.len() == 0,
        report_admitted(sinks, report),
    ensures
        report.len() == 0,
        after_broadcast(sinks, state, report).len() == 0,
{
}

} // verus!
