//! Trusted bridge to std's `Any`-based type erasure.
//!
//! An envelope carries its payload either exclusively owned (tell / ask) or
//! shared and reference-counted (broadcast). Both holders erase the payload's
//! type; the operations below recover it by an exact run-time type match and
//! promise that every failing path hands the very same payload back.

use core::any::Any;
use std::sync::Arc;

use vstd::prelude::*;

use crate::message::Message;

verus! {

/// An exclusively owned, type-erased payload: exactly one eventual receiver
/// may move the value out (tell and ask envelopes).
#[verifier::external_body]
pub struct ExclusivePayload {
    pub(crate) inner: Box<dyn Any + Send + Sync + 'static>,
}

/// A shared, immutable, reference-counted, type-erased payload: any number
/// of concurrent readers may hold a view of it (broadcast envelopes).
#[verifier::external_body]
pub struct SharedPayload {
    inner: Arc<dyn Any + Send + Sync + 'static>,
}

/// Relies on `Box::new` and unsizing to `dyn Any`: erases one owned value.
#[verifier::external_body]
pub(crate) fn exclusive_new<M: Message>(value: M) -> ExclusivePayload {
    ExclusivePayload { inner: Box::new(value) }
}

/// Relies on `Box::<dyn Any + Send + Sync>::downcast`: the owned value when
/// the requested type matches the erased one; on a mismatch the same payload
/// comes back unchanged.
#[verifier::external_body]
pub(crate) fn exclusive_downcast<M: Message>(payload: ExclusivePayload) -> (r: Result<
    M,
    ExclusivePayload,
>)
    ensures
        r matches Err(p) ==> p == payload,
{
    match payload.inner.downcast::<M>() {
        Ok(value) => Ok(*value),
        Err(inner) => Err(ExclusivePayload { inner }),
    }
}

/// Relies on `Arc::new` and unsizing to `dyn Any`: erases one shared value.
#[verifier::external_body]
pub(crate) fn shared_new<M: Message>(value: M) -> SharedPayload {
    SharedPayload { inner: Arc::new(value) }
}

/// Relies on `Arc::clone`: the clone is a handle to the very same immutable
/// payload, so it stands for the same value.
#[verifier::external_body]
pub(crate) fn shared_clone(payload: &SharedPayload) -> (r: SharedPayload)
    ensures
        r == *payload,
{
    SharedPayload { inner: Arc::clone(&payload.inner) }
}

/// Relies on `Arc::<dyn Any + Send + Sync>::downcast` on a cloned handle: a
/// typed shared view of the payload when the requested type matches, `None`
/// on a mismatch, with the original handle left untouched.
#[verifier::external_body]
pub(crate) fn shared_downcast<M: Message>(payload: &SharedPayload) -> Option<Arc<M>> {
    Arc::clone(&payload.inner).downcast::<M>().ok()
}

/// Relies on `Arc::downcast` and `Arc::try_unwrap`: the owned value when the
/// requested type matches and no other handle to the payload is live; every
/// failing path hands the same payload back unchanged.
#[verifier::external_body]
pub(crate) fn shared_into_owned<M: Message>(payload: SharedPayload) -> (r: Result<
    M,
    SharedPayload,
>)
    ensures
        r matches Err(p) ==> p == payload,
{
    match payload.inner.downcast::<M>() {
        Ok(typed) => match Arc::try_unwrap(typed) {
            Ok(value) => Ok(value),
            Err(typed) => Err(SharedPayload { inner: typed }),
        },
        Err(inner) => Err(SharedPayload { inner }),
    }
}

} // verus!
