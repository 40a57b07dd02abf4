//! Ready-made callbacks for the transform and recovery combinators, and the
//! computation that yields an outcome known in advance.
use vstd::prelude::*;
use crate::filter::{
    AndThenFn, Computation, MapErrFn, MapFn, Outcome, Poll, Misuse, RecoverFn, RecoverOneFn, Resolution,
    SpecOutcome, ThenFn, outcome_view,
};
use crate::reject::{Cause, Rejection};
use crate::route::{Request, Route};
use crate::value::{Value, tuple, tuple_of};

verus! {

/// A computation that is ready at once with an outcome fixed when it starts.
pub struct ReadyFuture {
    outcome: Option<Outcome>,
}

impl ReadyFuture {
    pub fn new(outcome: Outcome) -> (r: ReadyFuture)
        ensures
            r.outcome() == Some(outcome_view(outcome)),
    {
        ReadyFuture { outcome: Some(outcome) }
    }

    /// The outcome still to be handed out.
    pub closed spec fn outcome(&self) -> Option<SpecOutcome> {
        match self.outcome {
            Some(o) => Some(outcome_view(o)),
            None => None,
        }
    }
}

impl Computation for ReadyFuture {
    closed spec fn is_complete(&self) -> bool {
        self.outcome is None
    }

    closed spec fn fits(&self, req: Request) -> bool {
        true
    }

    closed spec fn resolves(&self, req: Request, idx: nat) -> Resolution {
        match self.outcome {
            Some(o) => (outcome_view(o), idx),
            None => (Err(Seq::empty()), idx),
        }
    }

    closed spec fn ready(&self, req: Request, idx: nat) -> bool {
        true
    }

    closed spec fn pending_index(&self, req: Request, idx: nat) -> nat {
        idx
    }

    fn poll(&mut self, route: &mut Route) -> (r: Result<Poll, Misuse>) {
        match self.outcome.take() {
            Some(o) => Ok(Poll::Ready(o)),
            None => Err(Misuse::PolledAfterComplete),
        }
    }
}

/// Packs the extracted values into one tuple.
#[derive(Clone, Copy, Debug)]
pub struct Tupled;

impl MapFn for Tupled {
    open spec fn spec_call(&self, args: Seq<Value>) -> Seq<Value> {
        tuple_of(args)
    }

    proof fn lemma_single(&self, args: Seq<Value>) {
    }

    fn call(&self, args: Vec<Value>) -> (r: Vec<Value>) {
        tuple(args)
    }

    fn duplicate(&self) -> (r: Self) {
        Tupled
    }
}

/// Appends one value to the extracted values and packs them into one tuple.
#[derive(Clone, Debug)]
pub struct Append {
    pub value: Value,
}

impl MapFn for Append {
    open spec fn spec_call(&self, args: Seq<Value>) -> Seq<Value> {
        tuple_of(args.push(self.value))
    }

    proof fn lemma_single(&self, args: Seq<Value>) {
    }

    fn call(&self, args: Vec<Value>) -> (r: Vec<Value>) {
        let mut args = args;
        args.push(self.value.duplicate());
        tuple(args)
    }

    fn duplicate(&self) -> (r: Self) {
        Append { value: self.value.duplicate() }
    }
}

impl AndThenFn for Append {
    type Output = ReadyFuture;

    open spec fn spec_resolves(&self, args: Seq<Value>, req: Request, idx: nat) -> Resolution {
        (Ok(tuple_of(args.push(self.value))), idx)
    }

    open spec fn spec_ready(&self, args: Seq<Value>, req: Request, idx: nat) -> bool {
        true
    }

    open spec fn spec_pending_index(&self, args: Seq<Value>, req: Request, idx: nat) -> nat {
        idx
    }

    proof fn lemma_single(&self, args: Seq<Value>, req: Request, idx: nat) {
    }

    fn call(&self, args: Vec<Value>, route: &Route) -> (c: ReadyFuture) {
        let mut args = args;
        args.push(self.value.duplicate());
        ReadyFuture::new(Ok(tuple(args)))
    }

    fn duplicate(&self) -> (r: Self) {
        Append { value: self.value.duplicate() }
    }
}

/// Replaces a failure by a single cause.
#[derive(Clone, Debug)]
pub struct Replace {
    pub cause: Cause,
}

impl MapErrFn for Replace {
    open spec fn spec_call(&self, err: Seq<Cause>) -> Seq<Cause> {
        seq![self.cause]
    }

    fn call(&self, err: Rejection) -> (r: Rejection) {
        Rejection::new(self.cause.duplicate())
    }

    fn duplicate(&self) -> (r: Self) {
        Replace { cause: self.cause.duplicate() }
    }
}

impl RecoverFn for Replace {
    type Output = ReadyFuture;

    open spec fn spec_resolves(&self, err: Seq<Cause>, req: Request, idx: nat) -> Resolution {
        (Err(seq![self.cause]), idx)
    }

    open spec fn spec_ready(&self, err: Seq<Cause>, req: Request, idx: nat) -> bool {
        true
    }

    open spec fn spec_pending_index(&self, err: Seq<Cause>, req: Request, idx: nat) -> nat {
        idx
    }

    fn call(&self, err: Rejection, route: &Route) -> (c: ReadyFuture) {
        ReadyFuture::new(Err(Rejection::new(self.cause.duplicate())))
    }

    fn duplicate(&self) -> (r: Self) {
        Replace { cause: self.cause.duplicate() }
    }
}

/// Supplies a single value in place of a failure.
#[derive(Clone, Debug)]
pub struct Fallback {
    pub value: Value,
}

impl RecoverFn for Fallback {
    type Output = ReadyFuture;

    open spec fn spec_resolves(&self, err: Seq<Cause>, req: Request, idx: nat) -> Resolution {
        (Ok(seq![self.value]), idx)
    }

    open spec fn spec_ready(&self, err: Seq<Cause>, req: Request, idx: nat) -> bool {
        true
    }

    open spec fn spec_pending_index(&self, err: Seq<Cause>, req: Request, idx: nat) -> nat {
        idx
    }

    fn call(&self, err: Rejection, route: &Route) -> (c: ReadyFuture) {
        let mut values: Vec<Value> = Vec::new();
        values.push(self.value.duplicate());
        ReadyFuture::new(Ok(values))
    }

    fn duplicate(&self) -> (r: Self) {
        Fallback { value: self.value.duplicate() }
    }
}

/// Settles any outcome into a single value: the extracted values packed into
/// one tuple, or `value` in place of a failure.
#[derive(Clone, Debug)]
pub struct Settle {
    pub value: Value,
}

impl ThenFn for Settle {
    type Output = ReadyFuture;

    open spec fn spec_resolves(&self, outcome: SpecOutcome, req: Request, idx: nat) -> Resolution {
        match outcome {
            Ok(x) => (Ok(tuple_of(x)), idx),
            Err(_) => (Ok(seq![self.value]), idx),
        }
    }

    open spec fn spec_ready(&self, outcome: SpecOutcome, req: Request, idx: nat) -> bool {
        true
    }

    open spec fn spec_pending_index(&self, outcome: SpecOutcome, req: Request, idx: nat) -> nat {
        idx
    }

    proof fn lemma_single(&self, outcome: SpecOutcome, req: Request, idx: nat) {
    }

    fn call(&self, outcome: Outcome, route: &Route) -> (c: ReadyFuture) {
        match outcome {
            Ok(x) => ReadyFuture::new(Ok(tuple(x))),
            Err(_) => {
                let mut values: Vec<Value> = Vec::new();
                values.push(self.value.duplicate());
                ReadyFuture::new(Ok(values))
            },
        }
    }

    fn duplicate(&self) -> (r: Self) {
        Settle { value: self.value.duplicate() }
    }
}

impl RecoverOneFn for Replace {
    proof fn lemma_single(&self, err: Seq<Cause>, req: Request, idx: nat) {
    }
}

impl RecoverOneFn for Fallback {
    proof fn lemma_single(&self, err: Seq<Cause>, req: Request, idx: nat) {
    }
}

} // verus!
