//! The message channels the components talk over.
//!
//! The calls into the channel crate are not proved: each states what the
//! crate does, as its source shows it. A send and a wait for completion
//! hand back a record of the call, which nothing else can make, so that a
//! contract can say which call was made.

use vstd::prelude::*;
use crate::lifecycle::{LifecycleEvent, WaitOutcome};

verus! {

/// The sending end of a `flume` channel. Opaque: what the channel holds is
/// shared with the receiving side and changes under it.
#[verifier::external_type_specification]
#[verifier::external_body]
#[verifier::reject_recursive_types(T)]
pub struct ExSender<T>(flume::Sender<T>);

/// The receiving end of a `flume` channel. Opaque, like the sending end.
#[verifier::external_type_specification]
#[verifier::external_body]
#[verifier::reject_recursive_types(T)]
pub struct ExReceiver<T>(flume::Receiver<T>);

/// `flume::unbounded`: a new channel without a capacity limit. Nothing is
/// claimed of the two ends.
pub assume_specification<T>[ flume::unbounded::<T> ]() -> (ends: (
    flume::Sender<T>,
    flume::Receiver<T>,
));

/// `flume::Sender::clone`: one more sending end of the same channel. The
/// crate builds the clone from the very channel state that the given
/// sender holds, so the two are equal as values.
pub assume_specification<T>[ <flume::Sender<T> as Clone>::clone ](
    sender: &flume::Sender<T>,
) -> (other: flume::Sender<T>)
    ensures
        other == *sender,
;

/// The record of one bounded wait on a lifecycle channel: on which
/// receiving end it was made, with which timeout, and how it ended. Only
/// [`wait_for_event`] makes one.
pub struct Waited {
    ended: WaitOutcome,
    on: Ghost<flume::Receiver<LifecycleEvent>>,
    timeout: Ghost<u32>,
}

impl Waited {
    /// The receiving end that was waited on.
    pub closed spec fn receiver(&self) -> flume::Receiver<LifecycleEvent> {
        self.on@
    }

    /// The timeout of the wait, in milliseconds.
    pub closed spec fn timeout_ms(&self) -> u32 {
        self.timeout@
    }

    /// How the wait ended.
    pub closed spec fn ended(&self) -> WaitOutcome {
        self.ended
    }

    /// How the wait ended.
    pub fn outcome(&self) -> (outcome: WaitOutcome)
        ensures
            outcome == self.ended(),
    {
        self.ended
    }
}

/// `flume::Receiver::recv_timeout` on the lifecycle channel: waits at most
/// `timeout_ms` milliseconds for an event. The record names the end and
/// the timeout that were handed to the call and tells its three outcomes
/// apart; nothing is claimed about which one comes. The crate computes the
/// deadline as now plus the timeout and panics if the clock cannot hold
/// it; a timeout of 32 bits of milliseconds is under fifty days.
#[verifier::external_body]
pub(crate) fn wait_for_event(receiver: &flume::Receiver<LifecycleEvent>, timeout_ms: u32) -> (waited:
    Waited)
    ensures
        waited.receiver() == *receiver,
        waited.timeout_ms() == timeout_ms,
{
    let ended = match receiver.recv_timeout(
        std::time::Duration::from_millis(u64::from(timeout_ms)),
    ) {
        Ok(LifecycleEvent::Exit) => WaitOutcome::Exit,
        Err(flume::RecvTimeoutError::Timeout) => WaitOutcome::Timeout,
        Err(flume::RecvTimeoutError::Disconnected) => WaitOutcome::Disconnected,
    };
    Waited { ended, on: Ghost(*receiver), timeout: Ghost(timeout_ms) }
}

/// The record of one send: over which sending end it went, what was
/// sent, and what the channel answered. Only [`send`] makes one.
#[verifier::reject_recursive_types(T)]
pub struct SendReceipt<T> {
    answer: Result<(), T>,
    over: Ghost<flume::Sender<T>>,
    message: Ghost<T>,
}

impl<T> SendReceipt<T> {
    /// The sending end that the message was handed to.
    pub closed spec fn sender(&self) -> flume::Sender<T> {
        self.over@
    }

    /// The message that was handed to the channel.
    pub closed spec fn message(&self) -> T {
        self.message@
    }

    /// What the channel answered: `Ok`, or the message that it did not
    /// take.
    pub closed spec fn answer(&self) -> Result<(), T> {
        self.answer
    }

    /// Whether the channel took the message.
    pub open spec fn taken(&self) -> bool {
        self.answer() is Ok
    }

    /// Whether the channel took the message.
    pub fn accepted(&self) -> (accepted: bool)
        ensures
            accepted == self.taken(),
    {
        self.answer.is_ok()
    }

    /// What the channel answered: the error hands the message back.
    pub fn into_answer(self) -> (answer: Result<(), T>)
        ensures
            answer == self.answer(),
            answer matches Err(back) ==> back == self.message(),
    {
        proof {
            use_type_invariant(&self);
        }
        self.answer
    }

    /// A message that the channel did not take is the one that was sent.
    #[verifier::type_invariant]
    spec fn hands_back_what_was_sent(self) -> bool {
        self.answer matches Err(back) ==> back == self.message@
    }
}

/// `flume::Sender::send`: puts the message in the channel, or hands it back
/// in the error when every receiver is gone. The receipt records the
/// sending end and the message that were handed to the call, and holds
/// what the call returned, the message taken out of the crate's error.
/// Which of the two answers comes depends on the receiving side, so
/// nothing is claimed of that.
#[verifier::external_body]
pub(crate) fn send<T>(sender: &flume::Sender<T>, msg: T) -> (receipt: SendReceipt<T>)
    ensures
        receipt.sender() == *sender,
        receipt.message() == msg,
        receipt.answer() matches Err(back) ==> back == msg,
{
    let answer = match sender.send(msg) {
        Ok(()) => Ok(()),
        Err(flume::SendError(back)) => Err(back),
    };
    SendReceipt { answer, over: Ghost(*sender), message: Ghost(msg) }
}

/// The record of one wait on a completion channel: on which receiving end
/// the wait was made, and whether the worker signalled its completion
/// before its end went away. Only [`wait_for_completion`] makes one.
pub struct Completion {
    signalled: bool,
    token: Ghost<flume::Receiver<()>>,
}

impl Completion {
    /// The receiving end that was waited on.
    pub closed spec fn token(&self) -> flume::Receiver<()> {
        self.token@
    }

    /// Whether the worker signalled its completion.
    pub closed spec fn was_signalled(&self) -> bool {
        self.signalled
    }

    /// Whether the worker signalled its completion, rather than only
    /// dropping its end of the channel.
    pub fn signalled(&self) -> (signalled: bool)
        ensures
            signalled == self.was_signalled(),
    {
        self.signalled
    }
}

/// `flume::Receiver::recv` on a completion channel: blocks until the worker
/// sends its completion or drops its sending end. The record names the end
/// that was waited on and tells the two ways of ending apart. The call
/// does not return while the worker keeps its end and stays silent.
#[verifier::external_body]
pub(crate) fn wait_for_completion(done: &flume::Receiver<()>) -> (completion: Completion)
    ensures
        completion.token() == *done,
{
    Completion { signalled: done.recv().is_ok(), token: Ghost(*done) }
}

} // verus!
