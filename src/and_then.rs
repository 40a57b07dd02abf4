//! Transform: on success, start an asynchronous callback and await it.
use vstd::prelude::*;
use crate::filter::{AndThenFn, Computation, Filter, Poll, Misuse, Resolution};
use crate::route::{Request, Route};

verus! {

/// Yields what the computation that `callback` starts on `filter`'s values
/// yields.
#[derive(Clone, Copy, Debug)]
pub struct AndThen<T, F> {
    pub filter: T,
    pub callback: F,
}

/// The inner filter resolved as `r1`; on success the callback runs next.
pub open spec fn and_then_rest<F: AndThenFn>(r1: Resolution, callback: F, req: Request) -> Resolution {
    match r1.0 {
        Ok(x) => callback.spec_resolves(x, req, r1.1),
        Err(e) => (Err(e), r1.1),
    }
}

/// A step of the inner filter resolves (`ready1`) as `r1`; when the step
/// as a whole resolves.
pub open spec fn and_then_ready<F: AndThenFn>(ready1: bool, r1: Resolution, callback: F, req: Request) -> bool {
    ready1 && (r1.0 is Err || callback.spec_ready(r1.0->Ok_0, req, r1.1))
}

/// Where a step that reports "not ready" leaves the index: where the inner
/// filter left it while that waits, else where the callback's computation's
/// first step does.
pub open spec fn and_then_pending<F: AndThenFn>(ready1: bool, pending1: nat, r1: Resolution, callback: F, req: Request) -> nat {
    if !ready1 {
        pending1
    } else {
        callback.spec_pending_index(r1.0->Ok_0, req, r1.1)
    }
}

impl<T: Filter, F: AndThenFn> Filter for AndThen<T, F> {
    type Future = AndThenFuture<T, F>;

    open spec fn extract(&self, req: Request, idx: nat) -> Resolution {
        and_then_rest(self.filter.extract(req, idx), self.callback, req)
    }

    open spec fn ready_at(&self, req: Request, idx: nat) -> bool {
        and_then_ready(self.filter.ready_at(req, idx), self.filter.extract(req, idx), self.callback, req)
    }

    open spec fn pending_index_at(&self, req: Request, idx: nat) -> nat {
        and_then_pending(
            self.filter.ready_at(req, idx),
            self.filter.pending_index_at(req, idx),
            self.filter.extract(req, idx),
            self.callback,
            req,
        )
    }

    fn filter(&self, route: &Route) -> (c: AndThenFuture<T, F>) {
        AndThenFuture { state: AndThenState::First(self.filter.filter(route), self.callback.duplicate()) }
    }

    fn duplicate(&self) -> (r: Self) {
        AndThen { filter: self.filter.duplicate(), callback: self.callback.duplicate() }
    }
}

/// The computation of an [`AndThen`].
pub struct AndThenFuture<T: Filter, F: AndThenFn> {
    state: AndThenState<T, F>,
}

enum AndThenState<T: Filter, F: AndThenFn> {
    First(T::Future, F),
    Second(F::Output),
    Done,
}

impl<T: Filter, F: AndThenFn> Computation for AndThenFuture<T, F> {
    closed spec fn is_complete(&self) -> bool {
        match self.state {
            AndThenState::First(c1, _) => c1.is_complete(),
            AndThenState::Second(c2) => c2.is_complete(),
            AndThenState::Done => true,
        }
    }

    closed spec fn fits(&self, req: Request) -> bool {
        match self.state {
            AndThenState::First(c1, _) => c1.fits(req),
            AndThenState::Second(c2) => c2.fits(req),
            AndThenState::Done => true,
        }
    }

    closed spec fn resolves(&self, req: Request, idx: nat) -> Resolution {
        match self.state {
            AndThenState::First(c1, callback) => and_then_rest(c1.resolves(req, idx), callback, req),
            AndThenState::Second(c2) => c2.resolves(req, idx),
            AndThenState::Done => (Err(Seq::empty()), idx),
        }
    }

    closed spec fn ready(&self, req: Request, idx: nat) -> bool {
        match self.state {
            AndThenState::First(c1, callback) => and_then_ready(c1.ready(req, idx), c1.resolves(req, idx), callback, req),
            AndThenState::Second(c2) => c2.ready(req, idx),
            AndThenState::Done => true,
        }
    }

    closed spec fn pending_index(&self, req: Request, idx: nat) -> nat {
        match self.state {
            AndThenState::First(c1, callback) => and_then_pending(
                c1.ready(req, idx),
                c1.pending_index(req, idx),
                c1.resolves(req, idx),
                callback,
                req,
            ),
            AndThenState::Second(c2) => c2.pending_index(req, idx),
            AndThenState::Done => idx,
        }
    }

    fn poll(&mut self, route: &mut Route) -> (r: Result<Poll, Misuse>) {
        let mut state = AndThenState::Done;
        core::mem::swap(&mut self.state, &mut state);
        let mut second = match state {
            AndThenState::Done => return Err(Misuse::PolledAfterComplete),
            AndThenState::First(mut first, callback) => match first.poll(route) {
                Ok(Poll::Ready(Ok(ex1))) => callback.call(ex1, route),
                Ok(Poll::Ready(Err(err))) => return Ok(Poll::Ready(Err(err))),
                Ok(Poll::Pending) => {
                    self.state = AndThenState::First(first, callback);
                    return Ok(Poll::Pending);
                },
                Err(m) => return Err(m),
            },
            AndThenState::Second(second) => second,
        };
        match second.poll(route) {
            Ok(Poll::Ready(outcome)) => Ok(Poll::Ready(outcome)),
            Ok(Poll::Pending) => {
                self.state = AndThenState::Second(second);
                Ok(Poll::Pending)
            },
            Err(m) => Err(m),
        }
    }
}

} // verus!
