//! The extraction protocol: filters, the computations they start, and the
//! callbacks that transform their outcomes.
use vstd::prelude::*;
use crate::reject::{Cause, Rejection};
use crate::route::{Request, Route};
use crate::value::{Value, is_single};

verus! {

/// What a finished extraction yields, in exec form.
pub type Outcome = Result<Vec<Value>, Rejection>;

/// What a finished extraction yields: a value-list or a failure.
pub type SpecOutcome = Result<Seq<Value>, Seq<Cause>>;

/// The outcome of a driven computation together with the matched-path index
/// it leaves behind.
pub type Resolution = (SpecOutcome, nat);

pub open spec fn outcome_view(o: Outcome) -> SpecOutcome {
    match o {
        Ok(v) => Ok(v@),
        Err(e) => Err(e@),
    }
}

/// The state of a computation after one step.
#[derive(Debug)]
pub enum Poll {
    Pending,
    Ready(Outcome),
}

/// Misuse of a computation, reported instead of a second result.
#[derive(Clone, Copy, Debug, PartialEq, Eq)]
pub enum Misuse {
    PolledAfterComplete,
}

/// A suspendable extraction in progress, bound to one request.
pub trait Computation: Sized {
    /// The computation has produced its outcome.
    spec fn is_complete(&self) -> bool;

    /// The computation may be driven on this request.
    spec fn fits(&self, req: Request) -> bool;

    /// What driving the computation to completion yields, starting from the
    /// matched-path index `idx`.
    spec fn resolves(&self, req: Request, idx: nat) -> Resolution;

    /// The next step, taken from matched-path index `idx`, resolves: every
    /// computation it waits on is ready.
    spec fn ready(&self, req: Request, idx: nat) -> bool;

    /// Where the next step, taken from matched-path index `idx`, leaves the
    /// index when it reports "not ready".
    spec fn pending_index(&self, req: Request, idx: nat) -> nat;

    /// Drives the computation one step. Once it has completed, every further
    /// step is refused.
    fn poll(&mut self, route: &mut Route) -> (r: Result<Poll, Misuse>)
        requires
            old(route).wf(),
            old(self).fits(old(route)@.request),
        ensures
            final(route).wf(),
            final(route)@.request == old(route)@.request,
            final(self).fits(old(route)@.request),
            old(self).is_complete() ==> r == Err::<Poll, Misuse>(Misuse::PolledAfterComplete)
                && final(self).is_complete() && final(route)@ == old(route)@,
            !old(self).is_complete() ==> (old(self).ready(old(route)@.request, old(route)@.index)
                <==> r matches Ok(Poll::Ready(_))),
            !old(self).is_complete() ==> match r {
                Ok(Poll::Ready(o)) => final(self).is_complete() && (outcome_view(o), final(route)@.index)
                    == old(self).resolves(old(route)@.request, old(route)@.index),
                Ok(Poll::Pending) => !final(self).is_complete() && final(route)@.index
                    == old(self).pending_index(old(route)@.request, old(route)@.index)
                    && final(self).resolves(old(route)@.request, final(route)@.index)
                    == old(self).resolves(old(route)@.request, old(route)@.index),
                Err(_) => false,
            },
    ;
}

/// A reusable description of one extraction step.
pub trait Filter: Sized {
    type Future: Computation;

    /// What this filter yields on a request, starting from matched-path index
    /// `idx`, and the index it leaves behind.
    spec fn extract(&self, req: Request, idx: nat) -> Resolution;

    /// The first step of a fresh computation started at `idx` resolves.
    spec fn ready_at(&self, req: Request, idx: nat) -> bool;

    /// Where the first step of a fresh computation started at `idx` leaves
    /// the matched-path index when it reports "not ready".
    spec fn pending_index_at(&self, req: Request, idx: nat) -> nat;

    /// Starts a fresh computation on the given routing context.
    fn filter(&self, route: &Route) -> (c: Self::Future)
        requires
            route.wf(),
        ensures
            !c.is_complete(),
            c.fits(route@.request),
            c.resolves(route@.request, route@.index) == self.extract(route@.request, route@.index),
            c.ready(route@.request, route@.index) == self.ready_at(route@.request, route@.index),
            c.pending_index(route@.request, route@.index) == self.pending_index_at(
                route@.request,
                route@.index,
            ),
    ;

    /// A copy of this filter.
    fn duplicate(&self) -> (r: Self)
        ensures
            r == *self,
    ;
}

/// A synchronous callback over a value-list; it returns a single value.
pub trait MapFn: Sized {
    spec fn spec_call(&self, args: Seq<Value>) -> Seq<Value>;

    proof fn lemma_single(&self, args: Seq<Value>)
        ensures
            is_single(self.spec_call(args)),
    ;

    fn call(&self, args: Vec<Value>) -> (r: Vec<Value>)
        ensures
            r@ == self.spec_call(args@),
    ;

    fn duplicate(&self) -> (r: Self)
        ensures
            r == *self,
    ;
}

/// A synchronous callback over a failure.
pub trait MapErrFn: Sized {
    spec fn spec_call(&self, err: Seq<Cause>) -> Seq<Cause>;

    fn call(&self, err: Rejection) -> (r: Rejection)
        ensures
            r@ == self.spec_call(err@),
    ;

    fn duplicate(&self) -> (r: Self)
        ensures
            r == *self,
    ;
}

/// An asynchronous callback over a value-list: it starts a computation that
/// yields a single value.
pub trait AndThenFn: Sized {
    type Output: Computation;

    spec fn spec_resolves(&self, args: Seq<Value>, req: Request, idx: nat) -> Resolution;

    spec fn spec_ready(&self, args: Seq<Value>, req: Request, idx: nat) -> bool;

    spec fn spec_pending_index(&self, args: Seq<Value>, req: Request, idx: nat) -> nat;

    proof fn lemma_single(&self, args: Seq<Value>, req: Request, idx: nat)
        ensures
            self.spec_resolves(args, req, idx).0 is Ok ==> is_single(
                self.spec_resolves(args, req, idx).0->Ok_0,
            ),
    ;

    fn call(&self, args: Vec<Value>, route: &Route) -> (c: Self::Output)
        requires
            route.wf(),
        ensures
            !c.is_complete(),
            c.fits(route@.request),
            c.resolves(route@.request, route@.index) == self.spec_resolves(
                args@,
                route@.request,
                route@.index,
            ),
            c.ready(route@.request, route@.index) == self.spec_ready(args@, route@.request, route@.index),
            c.pending_index(route@.request, route@.index) == self.spec_pending_index(
                args@,
                route@.request,
                route@.index,
            ),
    ;

    fn duplicate(&self) -> (r: Self)
        ensures
            r == *self,
    ;
}

/// An asynchronous callback over a whole outcome: it starts a computation
/// that yields a single value.
pub trait ThenFn: Sized {
    type Output: Computation;

    spec fn spec_resolves(&self, outcome: SpecOutcome, req: Request, idx: nat) -> Resolution;

    spec fn spec_ready(&self, outcome: SpecOutcome, req: Request, idx: nat) -> bool;

    spec fn spec_pending_index(&self, outcome: SpecOutcome, req: Request, idx: nat) -> nat;

    proof fn lemma_single(&self, outcome: SpecOutcome, req: Request, idx: nat)
        ensures
            self.spec_resolves(outcome, req, idx).0 is Ok ==> is_single(
                self.spec_resolves(outcome, req, idx).0->Ok_0,
            ),
    ;

    fn call(&self, outcome: Outcome, route: &Route) -> (c: Self::Output)
        requires
            route.wf(),
        ensures
            !c.is_complete(),
            c.fits(route@.request),
            c.resolves(route@.request, route@.index) == self.spec_resolves(
                outcome_view(outcome),
                route@.request,
                route@.index,
            ),
            c.ready(route@.request, route@.index) == self.spec_ready(outcome_view(outcome), route@.request, route@.index),
            c.pending_index(route@.request, route@.index) == self.spec_pending_index(
                outcome_view(outcome),
                route@.request,
                route@.index,
            ),
    ;

    fn duplicate(&self) -> (r: Self)
        ensures
            r == *self,
    ;
}

/// An asynchronous callback over a failure: it starts a computation.
pub trait RecoverFn: Sized {
    type Output: Computation;

    spec fn spec_resolves(&self, err: Seq<Cause>, req: Request, idx: nat) -> Resolution;

    spec fn spec_ready(&self, err: Seq<Cause>, req: Request, idx: nat) -> bool;

    spec fn spec_pending_index(&self, err: Seq<Cause>, req: Request, idx: nat) -> nat;


    fn call(&self, err: Rejection, route: &Route) -> (c: Self::Output)
        requires
            route.wf(),
        ensures
            !c.is_complete(),
            c.fits(route@.request),
            c.resolves(route@.request, route@.index) == self.spec_resolves(
                err@,
                route@.request,
                route@.index,
            ),
            c.ready(route@.request, route@.index) == self.spec_ready(err@, route@.request, route@.index),
            c.pending_index(route@.request, route@.index) == self.spec_pending_index(
                err@,
                route@.request,
                route@.index,
            ),
    ;

    fn duplicate(&self) -> (r: Self)
        ensures
            r == *self,
    ;
}

/// A recovering callback whose computation, on success, yields a single
/// value.
pub trait RecoverOneFn: RecoverFn {
    proof fn lemma_single(&self, err: Seq<Cause>, req: Request, idx: nat)
        ensures
            self.spec_resolves(err, req, idx).0 is Ok ==> is_single(
                self.spec_resolves(err, req, idx).0->Ok_0,
            ),
    ;
}

} // verus!
