//! A child's execution context: its identity, the references handed to it by
//! the supervision layer, and the first-in-first-out mailbox it receives its
//! envelopes from.

use std::collections::VecDeque;

use vstd::prelude::*;

use crate::lock::{guard_state, lock_state};
use crate::message::Msg;
use crate::refs::{ChildRef, ChildrenRef, SupervisorRef};

verus! {

/// An identifier used by supervisors, children groups and their elements to
/// identify themselves: the 128 bits of a version-4 UUID, drawn anew for
/// every instance and drawn again after a restart. The all-zero value is
/// reserved for the implicit system-level root owner.
#[derive(Clone, Copy, PartialEq, Eq, Hash, Debug, Structural)]
pub struct BastionId(u128);

impl BastionId {
    /// Whether this is the reserved identifier of the root owner.
    pub closed spec fn spec_is_nil(self) -> bool {
        self.0 == 0
    }

    /// A freshly drawn random identifier; never the reserved one.
    pub fn new() -> (r: BastionId)
        ensures
            !r.spec_is_nil(),
    {
        BastionId(fresh_id_value())
    }

    /// The reserved identifier of the implicit system-level root owner.
    pub fn nil() -> (r: BastionId)
        ensures
            r.spec_is_nil(),
    {
        BastionId(0)
    }

    /// Reports whether this is the reserved root identifier.
    pub fn is_nil(&self) -> (r: bool)
        ensures
            r == self.spec_is_nil(),
    {
        self.0 == 0
    }

    /// The canonical hyphenated text of this identifier, as the uuid
    /// formatter writes it.
    pub closed spec fn spec_text(self) -> Seq<char> {
        uuid_text_of(self.0)
    }

    /// The canonical hyphenated text form of the identifier.
    pub fn display_string(&self) -> (r: String)
        ensures
            r@ == self.spec_text(),
            r@.len() == 36,
    {
        id_text(self.0)
    }
}

/// The mailbox state: the ordered, unbounded buffer of envelopes an actor
/// has not yet received. Producers append at the back, the consumer takes
/// from the front, so envelopes come out oldest first.
pub struct ContextState {
    msgs: VecDeque<Msg>,
}

impl View for ContextState {
    type V = Seq<Msg>;

    closed spec fn view(&self) -> Seq<Msg> {
        self.msgs@
    }
}

impl ContextState {
    /// A fresh, empty mailbox.
    pub fn new() -> (r: ContextState)
        ensures
            r@ == Seq::<Msg>::empty(),
    {
        let msgs = VecDeque::new();
        ContextState { msgs }
    }

    /// Appends one envelope at the back, after every envelope already
    /// buffered; nothing else moves.
    pub fn push_msg(&mut self, msg: Msg)
        ensures
            final(self)@ == old(self)@.push(msg),
    {
        self.msgs.push_back(msg)
    }

    /// Removes and returns the oldest buffered envelope, or `None` when the
    /// mailbox is empty; the remaining envelopes keep their order.
    pub fn pop_msg(&mut self) -> (r: Option<Msg>)
        ensures
            match r {
                Some(msg) => {
                    &&& old(self)@.len() > 0
                    &&& msg == old(self)@.first()
                    &&& final(self)@ == old(self)@.drop_first()
                },
                None => {
                    &&& old(self)@.len() == 0
                    &&& final(self)@ == old(self)@
                },
            },
    {
        self.msgs.pop_front()
    }
}

/// What one probe of the mailbox reports.
pub enum RecvPoll {
    /// The oldest buffered envelope, now removed from the mailbox.
    Ready(Msg),
    /// The mailbox was locked and found empty.
    Empty,
    /// The mailbox's lock can no longer be acquired; no envelope can ever
    /// be received again through this context.
    Closed,
}

/// A child's execution context: its own identity, a reference to itself, a
/// reference to its children group, an optional reference to its supervisor
/// (`None` when its parent is the implicit root owner), and shared ownership
/// of its mailbox state.
pub struct BastionContext {
    id: BastionId,
    child: ChildRef,
    children: ChildrenRef,
    supervisor: Option<SupervisorRef>,
    state: qutex::Qutex<ContextState>,
}

impl BastionContext {
    /// The identity this context was created with.
    pub closed spec fn spec_id(self) -> BastionId {
        self.id
    }

    /// The self-reference this context was created with.
    pub closed spec fn spec_current(self) -> ChildRef {
        self.child
    }

    /// The group reference this context was created with.
    pub closed spec fn spec_parent(self) -> ChildrenRef {
        self.children
    }

    /// The optional supervisor reference this context was created with.
    pub closed spec fn spec_supervisor(self) -> Option<SupervisorRef> {
        self.supervisor
    }

    /// The shared mailbox handle this context was created with: every probe
    /// of this context goes through exactly this lock.
    pub closed spec fn spec_state(self) -> qutex::Qutex<ContextState> {
        self.state
    }

    /// Builds the context an actor's task holds, from the identity, the
    /// references and the shared mailbox state handed over by the
    /// supervision layer.
    pub fn new(
        id: BastionId,
        child: ChildRef,
        children: ChildrenRef,
        supervisor: Option<SupervisorRef>,
        state: qutex::Qutex<ContextState>,
    ) -> (r: BastionContext)
        ensures
            r.spec_id() == id,
            r.spec_current() == child,
            r.spec_parent() == children,
            r.spec_supervisor() == supervisor,
            r.spec_state() == state,
    {
        BastionContext { id, child, children, supervisor, state }
    }

    /// A reference to the children group's element linked to this context.
    pub fn current(&self) -> (r: &ChildRef)
        ensures
            *r == self.spec_current(),
    {
        &self.child
    }

    /// A reference to the children group of the element linked to this
    /// context.
    pub fn parent(&self) -> (r: &ChildrenRef)
        ensures
            *r == self.spec_parent(),
    {
        &self.children
    }

    /// A reference to the supervisor of the element linked to this context,
    /// or `None` when that element is supervised by the implicit root owner.
    pub fn supervisor(&self) -> (r: Option<&SupervisorRef>)
        ensures
            r is Some <==> self.spec_supervisor() is Some,
            r matches Some(s) ==> Some(*s) == self.spec_supervisor(),
    {
        self.supervisor.as_ref()
    }

    /// One probe of the mailbox: acquires the lock, pops the oldest
    /// envelope if one is buffered, and releases the lock. It never waits
    /// for an envelope to arrive; while another holder contends for the
    /// lock, the acquisition blocks the calling thread briefly rather than
    /// suspending cooperatively (the lock is only ever held for one push or
    /// one pop).
    pub fn poll_recv(&self) -> RecvPoll {
        match lock_state(&self.state) {
            Some(mut guard) => {
                let state = guard_state(&mut guard);
                match state.pop_msg() {
                    Some(msg) => RecvPoll::Ready(msg),
                    None => RecvPoll::Empty,
                }
            },
            None => RecvPoll::Closed,
        }
    }

    /// Tries to retrieve one envelope: the oldest buffered one, or `None`
    /// right away when the mailbox is empty or unusable — it never waits
    /// for a message to arrive. Lock contention blocks briefly, as for
    /// [`BastionContext::poll_recv`].
    pub fn try_recv(&self) -> Option<Msg> {
        match self.poll_recv() {
            RecvPoll::Ready(msg) => Some(msg),
            RecvPoll::Empty => None,
            RecvPoll::Closed => None,
        }
    }
}

/// `a` occurs within `q` as a subsequence, in `a`'s own order: `q` contains
/// every envelope of `a`, oldest first, possibly with other envelopes in
/// between.
pub open spec fn occurs_in_order(a: Seq<Msg>, q: Seq<Msg>) -> bool
    decreases q.len(),
{
    if a.len() == 0 {
        true
    } else if q.len() == 0 {
        false
    } else {
        ||| (q.first() == a.first() && occurs_in_order(a.drop_first(), q.drop_first()))
        ||| occurs_in_order(a, q.drop_first())
    }
}

/// `q` is one envelope-by-envelope merge of `a` and `b`: every envelope of
/// `q` is the next pending envelope of one of the two, in that producer's
/// own order. This is what a mailbox's contents look like after two
/// producers pushed `a` and `b` concurrently, one envelope per acquisition
/// of the lock.
pub open spec fn is_interleaving(q: Seq<Msg>, a: Seq<Msg>, b: Seq<Msg>) -> bool
    decreases q.len(),
{
    if q.len() == 0 {
        a.len() == 0 && b.len() == 0
    } else {
        ||| (a.len() > 0 && a.first() == q.first() && is_interleaving(
            q.drop_first(),
            a.drop_first(),
            b,
        ))
        ||| (b.len() > 0 && b.first() == q.first() && is_interleaving(
            q.drop_first(),
            a,
            b.drop_first(),
        ))
    }
}

/// First-in-first-out: three envelopes pushed in order onto an empty
/// mailbox come back out, one [`ContextState::pop_msg`] at a time, in the
/// order they were pushed, leaving the mailbox empty.
pub proof fn lemma_fifo_three(e1: Msg, e2: Msg, e3: Msg)
    ensures
        ({
            let q = Seq::<Msg>::empty().push(e1).push(e2).push(e3);
            &&& q.len() == 3
            &&& q.first() == e1
            &&& q.drop_first().first() == e2
            &&& q.drop_first().drop_first().first() == e3
            &&& q.drop_first().drop_first().drop_first().len() == 0
        }),
{
    let q = Seq::<Msg>::empty().push(e1).push(e2).push(e3);
    assert(q.drop_first() =~= seq![e2, e3]);
    assert(q.drop_first().drop_first() =~= seq![e3]);
    assert(q.drop_first().drop_first().drop_first() =~= Seq::<Msg>::empty());
}

/// No producer's envelopes are ever reordered relative to themselves: in
/// any interleaving of the push sequences of two concurrent producers, each
/// producer's sequence still occurs in its own order.
pub proof fn lemma_interleaving_keeps_producer_order(q: Seq<Msg>, a: Seq<Msg>, b: Seq<Msg>)
    requires
        is_interleaving(q, a, b),
    ensures
        occurs_in_order(a, q),
        occurs_in_order(b, q),
    decreases q.len(),
{
    if q.len() == 0 {
    } else if a.len() > 0 && a.first() == q.first() && is_interleaving(
        q.drop_first(),
        a.drop_first(),
        b,
    ) {
        lemma_interleaving_keeps_producer_order(q.drop_first(), a.drop_first(), b);
    } else {
        lemma_interleaving_keeps_producer_order(q.drop_first(), a, b.drop_first());
    }
}

/// The canonical hyphenated text that the uuid formatter writes for a
/// 128-bit value: a pure function of the value alone.
pub uninterp spec fn uuid_text_of(value: u128) -> Seq<char>;

/// Relies on `uuid::Uuid::new_v4`: a freshly drawn random version-4 UUID.
/// Its version and variant bits are set unconditionally, so the value is
/// never zero. It aborts only if the operating system cannot supply random
/// bytes, an environmental failure akin to running out of memory.
#[verifier::external_body]
fn fresh_id_value() -> (r: u128)
    ensures
        r != 0,
{
    uuid::Uuid::new_v4().as_u128()
}

/// Relies on `uuid::Uuid::from_u128` and `uuid::fmt::Hyphenated`: the
/// canonical hyphenated text form of the value, always 36 characters.
#[verifier::external_body]
fn id_text(value: u128) -> (r: String)
    ensures
        r@ == uuid_text_of(value),
        r@.len() == 36,
{
    uuid::Uuid::from_u128(value).hyphenated().to_string()
}

} // verus!
