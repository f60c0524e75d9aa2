//! The `crossbeam_channel` channels that connect the server's main loop with a
//! client's tasks: which channel an end belongs to, and polling a receiving end.

use crate::server::data::Message;
use crossbeam_channel::{Receiver, Sender};
use vstd::prelude::*;

verus! {

/// The sending end of a `crossbeam_channel` channel.
#[verifier::external_type_specification]
#[verifier::external_body]
#[verifier::reject_recursive_types(T)]
pub struct ExSender<T>(Sender<T>);

/// The receiving end of a `crossbeam_channel` channel.
#[verifier::external_type_specification]
#[verifier::external_body]
#[verifier::reject_recursive_types(T)]
pub struct ExReceiver<T>(Receiver<T>);

/// The channel that a sending end sends into.
pub uninterp spec fn sender_channel(sender: Sender<Message>) -> int;

/// The channel that a receiving end receives from.
pub uninterp spec fn receiver_channel(receiver: Receiver<Message>) -> int;

/// Calls `crossbeam_channel::unbounded`, which opens one new channel without a
/// capacity limit and returns its two ends: what the sender sends, the receiver
/// receives. Nothing else is claimed of the ends.
#[verifier::external_body]
pub(crate) fn open_channel() -> (ends: (Sender<Message>, Receiver<Message>))
    ensures
        sender_channel(ends.0) == receiver_channel(ends.1),
{
    crossbeam_channel::unbounded()
}

/// Calls `crossbeam_channel::Receiver::try_recv` once, with `None` standing for its
/// error (the channel is empty or closed). Which message comes back depends on what
/// other threads have sent, so nothing is claimed of it.
#[verifier::external_body]
fn try_recv_once(receiver: &Receiver<Message>) -> (received: Option<Message>) {
    receiver.try_recv().ok()
}

/// A receiving end that the library polls, with the record (for proofs) of what
/// each poll through it took.
pub struct ReaderEnd {
    receiver: Receiver<Message>,
    log: Ghost<Seq<Option<Message>>>,
}

impl ReaderEnd {
    /// The channel that this end receives from.
    pub closed spec fn channel(&self) -> int {
        receiver_channel(self.receiver)
    }

    /// What each poll through this end took, oldest first (`None` when nothing was
    /// waiting).
    pub closed spec fn log(&self) -> Seq<Option<Message>> {
        self.log@
    }

    /// An end over `receiver` that has not been polled yet.
    pub fn new(receiver: Receiver<Message>) -> (end: Self)
        ensures
            end.channel() == receiver_channel(receiver),
            end.log() == Seq::<Option<Message>>::empty(),
    {
        ReaderEnd { receiver, log: Ghost(Seq::empty()) }
    }

    /// The receiving end itself.
    pub fn receiver(&self) -> (receiver: &Receiver<Message>)
        ensures
            receiver_channel(*receiver) == self.channel(),
    {
        &self.receiver
    }

    /// Takes the message waiting in the channel, if any, and records the poll.
    pub fn try_receive(&mut self) -> (received: Option<Message>)
        ensures
            final(self).channel() == old(self).channel(),
            final(self).log() == old(self).log().push(received),
    {
        let received = try_recv_once(&self.receiver);
        self.log = Ghost(self.log@.push(received));
        received
    }
}

} // verus!
