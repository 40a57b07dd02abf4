//! Recovery that keeps the distinction: `Either::A` of the inner filter's
//! values, or `Either::B` of what the callback recovered.
use vstd::prelude::*;
use crate::filter::{Computation, Filter, Poll, Misuse, RecoverOneFn, Resolution};
use crate::or::PathIndex;
use crate::route::{Request, Route};
use crate::value::{Arm, either, either_of};

verus! {

/// Yields `Either::A` of `filter`'s values, or else `Either::B` of what the
/// computation that `callback` starts on its failure yields.
#[derive(Clone, Copy, Debug)]
pub struct Recover<T, F> {
    pub filter: T,
    pub callback: F,
}

/// The recovering computation resolved as `r2`.
pub open spec fn recovered(r2: Resolution) -> Resolution {
    match r2.0 {
        Ok(y) => (Ok(either_of(Arm::B, y)), r2.1),
        Err(e) => (Err(e), r2.1),
    }
}

/// The inner filter, started from `orig`, resolved as `r1`.
pub open spec fn recover_rest<F: RecoverOneFn>(r1: Resolution, callback: F, req: Request, orig: nat) -> Resolution {
    match r1.0 {
        Ok(x) => (Ok(either_of(Arm::A, x)), r1.1),
        Err(e) => recovered(callback.spec_resolves(e, req, orig)),
    }
}

/// A step of the inner filter resolves (`ready1`) as `r1`; when the step
/// as a whole resolves.
pub open spec fn recover_ready<F: RecoverOneFn>(ready1: bool, r1: Resolution, callback: F, req: Request, orig: nat) -> bool {
    ready1 && (r1.0 is Ok || callback.spec_ready(r1.0->Err_0, req, orig))
}

/// Where a step that reports "not ready" leaves the index: where the inner
/// filter left it while that waits, else where the callback's computation's
/// first step does.
pub open spec fn recover_pending<F: RecoverOneFn>(ready1: bool, pending1: nat, r1: Resolution, callback: F, req: Request, orig: nat) -> nat {
    if !ready1 {
        pending1
    } else {
        callback.spec_pending_index(r1.0->Err_0, req, orig)
    }
}

impl<T: Filter, F: RecoverOneFn> Filter for Recover<T, F> {
    type Future = RecoverFuture<T, F>;

    open spec fn extract(&self, req: Request, idx: nat) -> Resolution {
        recover_rest(self.filter.extract(req, idx), self.callback, req, idx)
    }

    open spec fn ready_at(&self, req: Request, idx: nat) -> bool {
        recover_ready(self.filter.ready_at(req, idx), self.filter.extract(req, idx), self.callback, req, idx)
    }

    open spec fn pending_index_at(&self, req: Request, idx: nat) -> nat {
        recover_pending(
            self.filter.ready_at(req, idx),
            self.filter.pending_index_at(req, idx),
            self.filter.extract(req, idx),
            self.callback,
            req,
            idx,
        )
    }

    fn filter(&self, route: &Route) -> (c: RecoverFuture<T, F>) {
        let idx = route.matched_path_index();
        RecoverFuture {
            state: RecoverState::First(self.filter.filter(route), self.callback.duplicate()),
            original_path_index: PathIndex(idx),
        }
    }

    fn duplicate(&self) -> (r: Self) {
        Recover { filter: self.filter.duplicate(), callback: self.callback.duplicate() }
    }
}

/// The computation of a [`Recover`].
pub struct RecoverFuture<T: Filter, F: RecoverOneFn> {
    state: RecoverState<T, F>,
    original_path_index: PathIndex,
}

enum RecoverState<T: Filter, F: RecoverOneFn> {
    First(T::Future, F),
    Second(F::Output),
    Done,
}

impl<T: Filter, F: RecoverOneFn> Computation for RecoverFuture<T, F> {
    closed spec fn is_complete(&self) -> bool {
        match self.state {
            RecoverState::First(c1, _) => c1.is_complete(),
            RecoverState::Second(c2) => c2.is_complete(),
            RecoverState::Done => true,
        }
    }

    closed spec fn fits(&self, req: Request) -> bool {
        &&& self.original_path_index.0 <= req.segments.len()
        &&& match self.state {
            RecoverState::First(c1, _) => c1.fits(req),
            RecoverState::Second(c2) => c2.fits(req),
            RecoverState::Done => true,
        }
    }

    closed spec fn resolves(&self, req: Request, idx: nat) -> Resolution {
        let orig = self.original_path_index.0 as nat;
        match self.state {
            RecoverState::First(c1, callback) => recover_rest(c1.resolves(req, idx), callback, req, orig),
            RecoverState::Second(c2) => recovered(c2.resolves(req, idx)),
            RecoverState::Done => (Err(Seq::empty()), idx),
        }
    }

    closed spec fn ready(&self, req: Request, idx: nat) -> bool {
        let orig = self.original_path_index.0 as nat;
        match self.state {
            RecoverState::First(c1, callback) => recover_ready(c1.ready(req, idx), c1.resolves(req, idx), callback, req, orig),
            RecoverState::Second(c2) => c2.ready(req, idx),
            RecoverState::Done => true,
        }
    }

    closed spec fn pending_index(&self, req: Request, idx: nat) -> nat {
        let orig = self.original_path_index.0 as nat;
        match self.state {
            RecoverState::First(c1, callback) => recover_pending(
                c1.ready(req, idx),
                c1.pending_index(req, idx),
                c1.resolves(req, idx),
                callback,
                req,
                orig,
            ),
            RecoverState::Second(c2) => c2.pending_index(req, idx),
            RecoverState::Done => idx,
        }
    }

    fn poll(&mut self, route: &mut Route) -> (r: Result<Poll, Misuse>) {
        let mut state = RecoverState::Done;
        core::mem::swap(&mut self.state, &mut state);
        let mut second = match state {
            RecoverState::Done => return Err(Misuse::PolledAfterComplete),
            RecoverState::First(mut first, callback) => match first.poll(route) {
                Ok(Poll::Ready(Ok(ex))) => return Ok(Poll::Ready(Ok(either(Arm::A, ex)))),
                Ok(Poll::Ready(Err(err))) => {
                    self.original_path_index.reset_path(route);
                    callback.call(err, route)
                },
                Ok(Poll::Pending) => {
                    self.state = RecoverState::First(first, callback);
                    return Ok(Poll::Pending);
                },
                Err(m) => return Err(m),
            },
            RecoverState::Second(second) => second,
        };
        match second.poll(route) {
            Ok(Poll::Ready(Ok(ex))) => Ok(Poll::Ready(Ok(either(Arm::B, ex)))),
            Ok(Poll::Ready(Err(err))) => Ok(Poll::Ready(Err(err))),
            Ok(Poll::Pending) => {
                self.state = RecoverState::Second(second);
                Ok(Poll::Pending)
            },
            Err(m) => Err(m),
        }
    }
}

} // verus!
