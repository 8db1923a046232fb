//! Trusted bridge to the `futures` one-shot channel that carries an ask's
//! reply.
//!
//! The channel is a rendezvous pair created together with an ask envelope:
//! the sender half is consumed by exactly one reply, the receiver half
//! resolves to that reply, or to a failure when the sender is dropped
//! unanswered. The wire carries a bare type-erased payload; wrapping it as a
//! tell envelope on arrival is verified code in the `message` module.

use vstd::prelude::*;

use crate::erased::ExclusivePayload;
use crate::message::{Answer, Message, ReplyState, Sender};

verus! {

/// Relies on `futures::channel::oneshot::channel`: a connected pair whose
/// receiver resolves once the sender fires or is dropped.
#[verifier::external_body]
pub(crate) fn oneshot_pair() -> (Sender, Answer) {
    let (tx, rx) = futures::channel::oneshot::channel();
    (Sender(tx), Answer(rx))
}

/// Relies on `futures::channel::oneshot::Sender::send`: delivery fails only
/// when the paired receiver is already gone, and then the very payload that
/// was sent comes back. The body only boxes the value on the way in and
/// unboxes it on the way out; the final downcast recovers the `M` that was
/// boxed two lines above and cannot fail.
#[verifier::external_body]
pub(crate) fn reply_send<M: Message>(tx: Sender, value: M) -> (r: Result<(), M>)
    ensures
        r matches Err(v) ==> v == value,
{
    match tx.0.send(ExclusivePayload { inner: Box::new(value) }) {
        Ok(()) => Ok(()),
        Err(returned) => Err(*returned.inner.downcast::<M>().ok().unwrap()),
    }
}

/// Relies on `futures::channel::oneshot::Receiver::try_recv`: reports,
/// without suspending, whether the reply arrived, is still pending, or can
/// no longer come because the sender is gone or the reply was already taken.
#[verifier::external_body]
pub(crate) fn answer_poll(rx: &mut Answer) -> ReplyState {
    match rx.0.try_recv() {
        Ok(Some(payload)) => ReplyState::Delivered(payload),
        Ok(None) => ReplyState::Pending,
        Err(_) => ReplyState::Dropped,
    }
}

} // verus!
