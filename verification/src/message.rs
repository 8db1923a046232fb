//! The type-erased message envelope and the reply channel behind an ask.
//!
//! A [`Msg`] carries one payload under one of three delivery modes:
//! broadcast (shared, immutable, many readers), tell (exclusively owned, one
//! consumer, no reply) and ask (like tell, plus a detachable one-shot reply
//! sender). The payload's type is fixed at construction and recovered only by
//! an exact run-time type match; a failed match hands the envelope back
//! unchanged, so a dispatcher can probe candidate types in order without ever
//! losing a message.

use vstd::prelude::*;

use crate::channel::{answer_poll, oneshot_pair, reply_send};
use crate::context::BastionId;
use crate::erased::{
    exclusive_downcast, exclusive_new, shared_clone, shared_downcast, shared_into_owned,
    shared_new, ExclusivePayload, SharedPayload,
};
use crate::refs::{Children, SupervisionStrategy, Supervisor};

verus! {

/// Anything an envelope can carry: owned, thread-safe, and type-identified
/// at run time (every such type satisfies `core::any::Any`).
pub trait Message: 'static + Send + Sync {

}

impl<T: 'static + Send + Sync> Message for T {

}

/// The sending half of an ask's reply channel: consumed by exactly one reply.
#[verifier::external_body]
pub struct Sender(pub(crate) futures::channel::oneshot::Sender<ExclusivePayload>);

/// The receiving half of an ask's reply channel: probed with
/// [`Answer::poll_reply`], it yields the reply envelope exactly once, or a
/// failure when the sender is dropped unanswered.
#[verifier::external_body]
pub struct Answer(pub(crate) futures::channel::oneshot::Receiver<ExclusivePayload>);

/// What one non-suspending probe of an [`Answer`] reports.
pub enum ReplyPoll {
    /// No reply yet, but the sender is still live.
    Pending,
    /// The reply arrived, as a tell envelope; it is handed over exactly once.
    Delivered(Msg),
    /// No reply can come any more: the sender was dropped unanswered, or the
    /// reply was already handed over.
    Dropped,
}

/// What the raw reply channel hands back before the envelope is rebuilt.
pub(crate) enum ReplyState {
    Pending,
    Delivered(ExclusivePayload),
    Dropped,
}

/// The delivery mode an envelope was constructed under.
pub enum Mode {
    /// Shared, immutable payload, any number of readers.
    Broadcast,
    /// Exclusively owned payload, exactly one consumer, no reply.
    Tell,
    /// Exclusively owned payload plus a one-shot reply channel.
    Ask,
}

/// A type-erased message envelope.
pub struct Msg(pub(crate) MsgInner);

pub(crate) enum MsgInner {
    Broadcast(SharedPayload),
    Tell(ExclusivePayload),
    Ask { msg: ExclusivePayload, sender: Option<Sender> },
}

impl Msg {
    /// The delivery mode this envelope was constructed under.
    pub closed spec fn spec_mode(self) -> Mode {
        match self.0 {
            MsgInner::Broadcast(_) => Mode::Broadcast,
            MsgInner::Tell(_) => Mode::Tell,
            MsgInner::Ask { .. } => Mode::Ask,
        }
    }

    /// True exactly of envelopes built by [`Msg::broadcast`].
    pub open spec fn spec_is_broadcast(self) -> bool {
        self.spec_mode() == Mode::Broadcast
    }

    /// True exactly of envelopes built by [`Msg::tell`].
    pub open spec fn spec_is_tell(self) -> bool {
        self.spec_mode() == Mode::Tell
    }

    /// True exactly of envelopes built by [`Msg::ask`].
    pub open spec fn spec_is_ask(self) -> bool {
        self.spec_mode() == Mode::Ask
    }

    /// The reply sender still embedded in the envelope, if any.
    pub closed spec fn spec_sender(self) -> Option<Sender> {
        match self.0 {
            MsgInner::Ask { sender, .. } => sender,
            _ => None,
        }
    }

    /// Whether a reply sender is still embedded in the envelope.
    pub open spec fn spec_has_sender(self) -> bool {
        self.spec_sender() is Some
    }

    /// The same envelope with its reply sender, if any, detached.
    pub closed spec fn spec_without_sender(self) -> Msg {
        match self.0 {
            MsgInner::Ask { msg, sender } => Msg(MsgInner::Ask { msg, sender: None }),
            _ => self,
        }
    }

    /// Wraps a payload in shared, reference-counted ownership, so any number
    /// of recipients may read it concurrently.
    pub fn broadcast<M: Message>(msg: M) -> (r: Msg)
        ensures
            r.spec_is_broadcast(),
            !r.spec_has_sender(),
    {
        Msg(MsgInner::Broadcast(shared_new(msg)))
    }

    /// Wraps a payload in exclusive ownership, to be consumed by exactly one
    /// eventual receiver, with no reply expected.
    pub fn tell<M: Message>(msg: M) -> (r: Msg)
        ensures
            r.spec_is_tell(),
            !r.spec_has_sender(),
    {
        Msg(MsgInner::Tell(exclusive_new(msg)))
    }

    /// Like [`Msg::tell`], but paired with a one-shot reply channel: the
    /// envelope embeds the sender half, the returned [`Answer`] is the
    /// receiver half.
    pub fn ask<M: Message>(msg: M) -> (r: (Msg, Answer))
        ensures
            r.0.spec_is_ask(),
            r.0.spec_has_sender(),
    {
        let (tx, rx) = oneshot_pair();
        let sender = Some(tx);
        let inner = MsgInner::Ask { msg: exclusive_new(msg), sender };
        (Msg(inner), rx)
    }

    /// Reports, without consuming the envelope, whether it was broadcast.
    pub fn is_broadcast(&self) -> (r: bool)
        ensures
            r == self.spec_is_broadcast(),
    {
        match &self.0 {
            MsgInner::Broadcast(_) => true,
            _ => false,
        }
    }

    /// Reports, without consuming the envelope, whether it was told.
    pub fn is_tell(&self) -> (r: bool)
        ensures
            r == self.spec_is_tell(),
    {
        match &self.0 {
            MsgInner::Tell(_) => true,
            _ => false,
        }
    }

    /// Reports, without consuming the envelope, whether it was asked.
    pub fn is_ask(&self) -> (r: bool)
        ensures
            r == self.spec_is_ask(),
    {
        match &self.0 {
            MsgInner::Ask { .. } => true,
            _ => false,
        }
    }

    /// Detaches the reply sender if one is still embedded (ask mode only);
    /// the envelope itself stays inspectable. A second call, or a call on a
    /// broadcast or tell envelope, yields `None` and changes nothing.
    pub fn take_sender(&mut self) -> (r: Option<Sender>)
        ensures
            r == old(self).spec_sender(),
            *final(self) == old(self).spec_without_sender(),
            final(self).spec_mode() == old(self).spec_mode(),
            !final(self).spec_has_sender(),
            !old(self).spec_is_ask() ==> *final(self) == *old(self),
            old(self).spec_sender() is None ==> *final(self) == *old(self),
    {
        match &mut self.0 {
            MsgInner::Ask { sender, .. } => sender.take(),
            _ => None,
        }
    }

    /// Recovers the payload of a tell or ask envelope as a concrete `M`. On
    /// a type match the envelope is consumed and the payload returned by
    /// value; on a mismatch, and on a broadcast envelope, the original
    /// envelope comes back unchanged as the error, so the caller can retry
    /// against other candidate types without losing the message.
    pub fn downcast<M: Message>(self) -> (r: Result<M, Msg>)
        ensures
            r matches Err(e) ==> e == self,
            self.spec_is_broadcast() ==> r is Err,
    {
        match self.0 {
            MsgInner::Tell(payload) => match exclusive_downcast::<M>(payload) {
                Ok(value) => Ok(value),
                Err(payload) => Err(Msg(MsgInner::Tell(payload))),
            },
            MsgInner::Ask { msg, sender } => match exclusive_downcast::<M>(msg) {
                Ok(value) => Ok(value),
                Err(msg) => Err(Msg(MsgInner::Ask { msg, sender })),
            },
            MsgInner::Broadcast(payload) => Err(Msg(MsgInner::Broadcast(payload))),
        }
    }

    /// The broadcast-mode analogue of [`Msg::downcast`]: a new shared view
    /// of the payload typed as `M` on a match, with the envelope and its
    /// payload left untouched for other readers; `None` on a type mismatch
    /// or on a tell or ask envelope.
    pub fn downcast_ref<M: Message>(&self) -> (r: Option<std::sync::Arc<M>>)
        ensures
            !self.spec_is_broadcast() ==> r is None,
    {
        match &self.0 {
            MsgInner::Broadcast(payload) => shared_downcast::<M>(payload),
            _ => None,
        }
    }

    /// Clones the envelope if and only if it was broadcast: the clone shares
    /// the same immutable payload. Tell and ask payloads have exactly one
    /// destination and at most one reply, so cloning them is refused.
    pub fn try_clone(&self) -> (r: Option<Msg>)
        ensures
            r is Some <==> self.spec_is_broadcast(),
            r matches Some(m) ==> m == *self,
    {
        match &self.0 {
            MsgInner::Broadcast(payload) => Some(Msg(MsgInner::Broadcast(shared_clone(payload)))),
            _ => None,
        }
    }

    /// Recovers an owned `M` from a broadcast envelope when this is the last
    /// live handle to the payload; on a tell or ask envelope it falls back to
    /// [`Msg::downcast`]. Every failing path returns the original envelope
    /// unchanged.
    pub fn try_unwrap<M: Message>(self) -> (r: Result<M, Msg>)
        ensures
            r matches Err(e) ==> e == self,
    {
        match self.0 {
            MsgInner::Broadcast(payload) => match shared_into_owned::<M>(payload) {
                Ok(value) => Ok(value),
                Err(payload) => Err(Msg(MsgInner::Broadcast(payload))),
            },
            other => Msg(other).downcast::<M>(),
        }
    }
}

/// A representation invariant, true of every envelope however it was built:
/// only an ask envelope can carry a reply sender, so on a broadcast or tell
/// envelope [`Msg::take_sender`] provably returns `None`.
pub proof fn lemma_non_ask_has_no_sender(m: Msg)
    ensures
        !m.spec_is_ask() ==> !m.spec_has_sender(),
{
}

/// The control envelope: the closed set of runtime-level signals that share
/// one transport with user traffic, so a mailbox never needs a second
/// channel.
pub enum BastionMessage {
    /// Start the addressed entity.
    Start,
    /// Stop the addressed entity gracefully.
    Stop,
    /// Kill the addressed entity.
    Kill,
    /// Deploy a new supervised entity.
    Deploy(Deployment),
    /// Prune the finished entity with the given identity.
    Prune { id: BastionId },
    /// Change the addressed supervisor's supervision strategy.
    SuperviseWith(SupervisionStrategy),
    /// One unit of user traffic, forwarded as is.
    Message(Msg),
    /// A report that the entity with the given identity stopped.
    Stopped { id: BastionId },
    /// A report that the entity with the given identity faulted.
    Faulted { id: BastionId },
}

/// What a deployment carries: a new supervisor or a new children group,
/// owned by the envelope until it reaches the deploying recipient.
pub enum Deployment {
    /// A supervisor to deploy.
    Supervisor(Supervisor),
    /// A children group to deploy.
    Children(Children),
}

impl BastionMessage {
    /// Whether the envelope may be cloned: a deployment owns its entity and
    /// is never clonable; forwarded user traffic is clonable exactly when
    /// its envelope was broadcast; every other signal is clonable.
    pub open spec fn spec_clonable(self) -> bool {
        match self {
            BastionMessage::Deploy(_) => false,
            BastionMessage::Message(msg) => msg.spec_is_broadcast(),
            _ => true,
        }
    }

    pub fn start() -> (r: BastionMessage)
        ensures
            r == BastionMessage::Start,
    {
        BastionMessage::Start
    }

    pub fn stop() -> (r: BastionMessage)
        ensures
            r == BastionMessage::Stop,
    {
        BastionMessage::Stop
    }

    pub fn kill() -> (r: BastionMessage)
        ensures
            r == BastionMessage::Kill,
    {
        BastionMessage::Kill
    }

    pub fn deploy_supervisor(supervisor: Supervisor) -> (r: BastionMessage)
        ensures
            r == BastionMessage::Deploy(Deployment::Supervisor(supervisor)),
    {
        let deployment = Deployment::Supervisor(supervisor);
        BastionMessage::Deploy(deployment)
    }

    pub fn deploy_children(children: Children) -> (r: BastionMessage)
        ensures
            r == BastionMessage::Deploy(Deployment::Children(children)),
    {
        let deployment = Deployment::Children(children);
        BastionMessage::Deploy(deployment)
    }

    pub fn prune(id: BastionId) -> (r: BastionMessage)
        ensures
            r == (BastionMessage::Prune { id }),
    {
        BastionMessage::Prune { id }
    }

    pub fn supervise_with(strategy: SupervisionStrategy) -> (r: BastionMessage)
        ensures
            r == BastionMessage::SuperviseWith(strategy),
    {
        BastionMessage::SuperviseWith(strategy)
    }

    /// Wraps a broadcast envelope of the payload as user traffic.
    pub fn broadcast<M: Message>(msg: M) -> (r: BastionMessage)
        ensures
            r matches BastionMessage::Message(m) && m.spec_is_broadcast(),
    {
        let msg = Msg::broadcast(msg);
        BastionMessage::Message(msg)
    }

    /// Wraps a tell envelope of the payload as user traffic.
    pub fn tell<M: Message>(msg: M) -> (r: BastionMessage)
        ensures
            r matches BastionMessage::Message(m) && m.spec_is_tell(),
    {
        let msg = Msg::tell(msg);
        BastionMessage::Message(msg)
    }

    /// Wraps an ask envelope of the payload as user traffic, returning the
    /// paired [`Answer`] to the asker.
    pub fn ask<M: Message>(msg: M) -> (r: (BastionMessage, Answer))
        ensures
            r.0 matches BastionMessage::Message(m) && m.spec_is_ask() && m.spec_has_sender(),
    {
        let (msg, answer) = Msg::ask(msg);
        (BastionMessage::Message(msg), answer)
    }

    pub fn stopped(id: BastionId) -> (r: BastionMessage)
        ensures
            r == (BastionMessage::Stopped { id }),
    {
        BastionMessage::Stopped { id }
    }

    pub fn faulted(id: BastionId) -> (r: BastionMessage)
        ensures
            r == (BastionMessage::Faulted { id }),
    {
        BastionMessage::Faulted { id }
    }

    /// Clones the control envelope if and only if it is clonable (see
    /// [`BastionMessage::spec_clonable`]); the clone equals the original.
    pub fn try_clone(&self) -> (r: Option<BastionMessage>)
        ensures
            r is Some <==> self.spec_clonable(),
            r matches Some(c) ==> c == *self,
    {
        match self {
            BastionMessage::Start => Some(BastionMessage::Start),
            BastionMessage::Stop => Some(BastionMessage::Stop),
            BastionMessage::Kill => Some(BastionMessage::Kill),
            BastionMessage::Deploy(_) => None,
            BastionMessage::Prune { id } => Some(BastionMessage::Prune { id: *id }),
            BastionMessage::SuperviseWith(strategy) => Some(
                BastionMessage::SuperviseWith(*strategy),
            ),
            BastionMessage::Message(msg) => match msg.try_clone() {
                Some(m) => Some(BastionMessage::Message(m)),
                None => None,
            },
            BastionMessage::Stopped { id } => Some(BastionMessage::Stopped { id: *id }),
            BastionMessage::Faulted { id } => Some(BastionMessage::Faulted { id: *id }),
        }
    }

    /// Recovers a forwarded user payload as a concrete `M`: the owned value
    /// when the envelope is user traffic whose payload matches; `None` on
    /// every control signal, on a type mismatch, and on a broadcast payload
    /// that other readers still hold.
    pub fn into_msg<M: Message>(self) -> (r: Option<M>)
        ensures
            !(self is Message) ==> r is None,
    {
        match self {
            BastionMessage::Message(msg) => match msg.try_unwrap::<M>() {
                Ok(value) => Some(value),
                Err(_) => None,
            },
            _ => None,
        }
    }
}

impl Sender {
    /// Consumes the sender and attempts the one-shot reply. Delivery fails
    /// only when the paired [`Answer`] was already dropped, and then the
    /// value itself comes back to the caller for disposal.
    pub fn send<M: Message>(self, msg: M) -> (r: Result<(), M>)
        ensures
            r matches Err(v) ==> v == msg,
    {
        reply_send(self, msg)
    }
}

impl Answer {
    /// Probes the reply channel without ever waiting. A delivered reply
    /// comes back as a tell envelope: exactly one consumer moves the payload
    /// out, and no reply is expected to a reply.
    pub fn poll_reply(&mut self) -> (r: ReplyPoll)
        ensures
            r matches ReplyPoll::Delivered(m) ==> m.spec_is_tell() && !m.spec_has_sender(),
    {
        match answer_poll(self) {
            ReplyState::Pending => ReplyPoll::Pending,
            ReplyState::Delivered(payload) => ReplyPoll::Delivered(Msg(MsgInner::Tell(payload))),
            ReplyState::Dropped => ReplyPoll::Dropped,
        }
    }
}

} // verus!
