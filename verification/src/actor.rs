//! Sinks as actors: a worker of its own behind a channel.

use vstd::prelude::*;
use crate::channel::{SendReceipt, send};
use crate::song::PlaybackState;

verus! {

/// What the worker of a sink got from one receive on its channel.
#[derive(Debug)]
pub enum SinkEvent {
    /// A state to show.
    Update(PlaybackState),
    /// The channel is closed and empty: no more states will come.
    Closed,
}

/// A sink that can be started: it gets a worker of its own and is reached
/// through the handle that comes back.
pub trait Actor {
    type MessageType;

    fn spawn(self) -> ActorHandle<Self::MessageType>;
}

/// The owner's side of a running actor: the channel that delivers its
/// messages, and the completion channel on which its worker reports that it
/// has finished.
#[verifier::reject_recursive_types(M)]
pub struct ActorHandle<M> {
    pub sender: flume::Sender<M>,
    pub done: flume::Receiver<()>,
}

impl<M> ActorHandle<M> {
    /// Bundles the two channel ends of a worker that is already running.
    pub fn new(sender: flume::Sender<M>, done: flume::Receiver<()>) -> (handle: ActorHandle<M>)
        ensures
            handle.sender == sender,
            handle.done == done,
    {
        ActorHandle { sender, done }
    }

    /// Sends one message to the actor, over the handle's own channel. The
    /// receipt tells whether the channel took it; where the actor's worker
    /// is gone it did not, and the receipt hands the message back.
    pub fn send(&self, message: M) -> (receipt: SendReceipt<M>)
        ensures
            receipt.sender() == self.sender,
            receipt.message() == message,
            receipt.answer() matches Err(back) ==> back == message,
    {
        send(&self.sender, message)
    }

    /// Closes the delivery channel, which tells the worker that no more
    /// messages will come, and keeps the completion channel.
    pub fn close(self) -> (done: flume::Receiver<()>)
        ensures
            done == self.done,
    {
        let ActorHandle { sender, done } = self;
        hang_up(sender);
        done
    }
}

/// Gives up a sending end: it is dropped on return.
fn hang_up<M>(sender: flume::Sender<M>) {
}

} // verus!
