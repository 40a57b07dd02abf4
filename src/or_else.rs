//! Recovery: on failure, rewind the matched path and start an asynchronous
//! callback that may supply the values instead.
use vstd::prelude::*;
use crate::filter::{Computation, Filter, Poll, Misuse, RecoverFn, Resolution};
use crate::or::PathIndex;
use crate::route::{Request, Route};

verus! {

/// Yields `filter`'s values, or else what the computation that `callback`
/// starts on its failure yields.
#[derive(Clone, Copy, Debug)]
pub struct OrElse<T, F> {
    pub filter: T,
    pub callback: F,
}

/// The inner filter, started from `orig`, resolved as `r1`.
pub open spec fn or_else_rest<F: RecoverFn>(r1: Resolution, callback: F, req: Request, orig: nat) -> Resolution {
    match r1.0 {
        Ok(x) => (Ok(x), r1.1),
        Err(e) => callback.spec_resolves(e, req, orig),
    }
}

/// A step of the inner filter resolves (`ready1`) as `r1`; when the step
/// as a whole resolves.
pub open spec fn or_else_ready<F: RecoverFn>(ready1: bool, r1: Resolution, callback: F, req: Request, orig: nat) -> bool {
    ready1 && (r1.0 is Ok || callback.spec_ready(r1.0->Err_0, req, orig))
}

/// Where a step that reports "not ready" leaves the index: where the inner
/// filter left it while that waits, else where the callback's computation's
/// first step does.
pub open spec fn or_else_pending<F: RecoverFn>(ready1: bool, pending1: nat, r1: Resolution, callback: F, req: Request, orig: nat) -> nat {
    if !ready1 {
        pending1
    } else {
        callback.spec_pending_index(r1.0->Err_0, req, orig)
    }
}

impl<T: Filter, F: RecoverFn> Filter for OrElse<T, F> {
    type Future = OrElseFuture<T, F>;

    open spec fn extract(&self, req: Request, idx: nat) -> Resolution {
        or_else_rest(self.filter.extract(req, idx), self.callback, req, idx)
    }

    open spec fn ready_at(&self, req: Request, idx: nat) -> bool {
        or_else_ready(self.filter.ready_at(req, idx), self.filter.extract(req, idx), self.callback, req, idx)
    }

    open spec fn pending_index_at(&self, req: Request, idx: nat) -> nat {
        or_else_pending(
            self.filter.ready_at(req, idx),
            self.filter.pending_index_at(req, idx),
            self.filter.extract(req, idx),
            self.callback,
            req, idx,
        )
    }

    fn filter(&self, route: &Route) -> (c: OrElseFuture<T, F>) {
        let idx = route.matched_path_index();
        OrElseFuture {
            state: OrElseState::First(self.filter.filter(route), self.callback.duplicate()),
            original_path_index: PathIndex(idx),
        }
    }

    fn duplicate(&self) -> (r: Self) {
        OrElse { filter: self.filter.duplicate(), callback: self.callback.duplicate() }
    }
}

/// The computation of an [`OrElse`].
pub struct OrElseFuture<T: Filter, F: RecoverFn> {
    state: OrElseState<T, F>,
    original_path_index: PathIndex,
}

enum OrElseState<T: Filter, F: RecoverFn> {
    First(T::Future, F),
    Second(F::Output),
    Done,
}

impl<T: Filter, F: RecoverFn> Computation for OrElseFuture<T, F> {
    closed spec fn is_complete(&self) -> bool {
        match self.state {
            OrElseState::First(c1, _) => c1.is_complete(),
            OrElseState::Second(c2) => c2.is_complete(),
            OrElseState::Done => true,
        }
    }

    closed spec fn fits(&self, req: Request) -> bool {
        &&& self.original_path_index.0 <= req.segments.len()
        &&& match self.state {
            OrElseState::First(c1, _) => c1.fits(req),
            OrElseState::Second(c2) => c2.fits(req),
            OrElseState::Done => true,
        }
    }

    closed spec fn resolves(&self, req: Request, idx: nat) -> Resolution {
        let orig = self.original_path_index.0 as nat;
        match self.state {
            OrElseState::First(c1, callback) => or_else_rest(c1.resolves(req, idx), callback, req, orig),
            OrElseState::Second(c2) => c2.resolves(req, idx),
            OrElseState::Done => (Err(Seq::empty()), idx),
        }
    }

    closed spec fn ready(&self, req: Request, idx: nat) -> bool {
        let orig = self.original_path_index.0 as nat;
        match self.state {
            OrElseState::First(c1, callback) => or_else_ready(c1.ready(req, idx), c1.resolves(req, idx), callback, req, orig),
            OrElseState::Second(c2) => c2.ready(req, idx),
            OrElseState::Done => true,
        }
    }

    closed spec fn pending_index(&self, req: Request, idx: nat) -> nat {
        let orig = self.original_path_index.0 as nat;
        match self.state {
            OrElseState::First(c1, callback) => or_else_pending(
                c1.ready(req, idx),
                c1.pending_index(req, idx),
                c1.resolves(req, idx),
                callback,
                req, orig,
            ),
            OrElseState::Second(c2) => c2.pending_index(req, idx),
            OrElseState::Done => idx,
        }
    }

    fn poll(&mut self, route: &mut Route) -> (r: Result<Poll, Misuse>) {
        let mut state = OrElseState::Done;
        core::mem::swap(&mut self.state, &mut state);
        let mut second = match state {
            OrElseState::Done => return Err(Misuse::PolledAfterComplete),
            OrElseState::First(mut first, callback) => match first.poll(route) {
                Ok(Poll::Ready(Ok(ex))) => return Ok(Poll::Ready(Ok(ex))),
                Ok(Poll::Ready(Err(err))) => {
                    self.original_path_index.reset_path(route);
                    callback.call(err, route)
                },
                Ok(Poll::Pending) => {
                    self.state = OrElseState::First(first, callback);
                    return Ok(Poll::Pending);
                },
                Err(m) => return Err(m),
            },
            OrElseState::Second(second) => second,
        };
        match second.poll(route) {
            Ok(Poll::Ready(outcome)) => Ok(Poll::Ready(outcome)),
            Ok(Poll::Pending) => {
                self.state = OrElseState::Second(second);
                Ok(Poll::Pending)
            },
            Err(m) => Err(m),
        }
    }
}

} // verus!
