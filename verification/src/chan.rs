//! The per-session broadcast channel: confirmed moves fan out to every
//! current subscriber, fire-and-forget. A slow or late subscriber misses
//! moves and is expected to resynchronize from a fresh snapshot.
//!
//! The channel itself is tokio's. [`MoveChannel`] pairs the sender with a
//! ghost history of everything ever handed to it, and the trusted items
//! below couple each real call to that model: a send extends the history
//! by exactly its message, and a subscription remembers how much history
//! existed when it was made — it observes exactly the later sends.

use vstd::prelude::*;

verus! {

#[verifier::external_type_specification]
#[verifier::external_body]
#[verifier::reject_recursive_types(T)]
pub struct ExSender<T>(tokio::sync::broadcast::Sender<T>);

#[verifier::external_type_specification]
#[verifier::external_body]
#[verifier::reject_recursive_types(T)]
pub struct ExReceiver<T>(tokio::sync::broadcast::Receiver<T>);

/// A broadcast sender together with the history of values published on it.
pub struct MoveChannel {
    sender: tokio::sync::broadcast::Sender<String>,
    history: Ghost<Seq<Seq<char>>>,
}

/// One subscriber's handle on a [`MoveChannel`], remembering (in ghost
/// form) how long the channel's history was when it subscribed.
pub struct Subscription {
    receiver: tokio::sync::broadcast::Receiver<String>,
    start: Ghost<nat>,
}

impl MoveChannel {
    /// Every value published on this channel, in order.
    pub closed spec fn history(self) -> Seq<Seq<char>> {
        self.history@
    }

    /// Relies on tokio's `broadcast::channel`: builds a fresh channel, on
    /// which nothing has been published. It panics only on a capacity of
    /// zero, and this call fixes the capacity at one, as a session buffers
    /// no move backlog.
    #[verifier::external_body]
    pub fn new() -> (c: MoveChannel)
        ensures
            c.history() == Seq::<Seq<char>>::empty(),
    {
        let (sender, _rx) = tokio::sync::broadcast::channel(1);
        MoveChannel { sender, history: Ghost(Seq::empty()) }
    }

    /// Relies on `broadcast::Sender::send`: delivers the value to every
    /// receiver subscribed at the time of the call, and fails exactly when
    /// there is none. Who subscribes is outside this crate, so only the
    /// success bit comes back; the history records what was handed to the
    /// channel either way.
    #[verifier::external_body]
    pub fn send(&mut self, msg: String) -> (ok: bool)
        ensures
            final(self).history() == old(self).history().push(msg@),
    {
        self.sender.send(msg).is_ok()
    }

    /// Relies on `broadcast::Sender::subscribe`: the new receiver observes
    /// exactly the values sent after this call — those past the current
    /// history.
    #[verifier::external_body]
    pub fn subscribe(&self) -> (r: Subscription)
        ensures
            r.start() == self.history().len(),
    {
        Subscription { receiver: self.sender.subscribe(), start: Ghost(0) }
    }
}

impl Subscription {
    /// How much of the channel's history had already been published when
    /// this subscription was made: it observes exactly what comes after.
    pub closed spec fn start(self) -> nat {
        self.start@
    }

    /// The raw receiver, for the host's relay loop to read from.
    pub fn into_inner(self) -> tokio::sync::broadcast::Receiver<String> {
        self.receiver
    }
}

} // verus!
