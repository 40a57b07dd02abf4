//! Transform: whatever the inner filter yields, start an asynchronous
//! callback on that outcome and await it.
use vstd::prelude::*;
use crate::filter::{Computation, Filter, Poll, Misuse, Resolution, ThenFn};
use crate::route::{Request, Route};

verus! {

/// Yields what the computation that `callback` starts on `filter`'s outcome
/// yields, success or failure alike.
#[derive(Clone, Copy, Debug)]
pub struct Then<T, F> {
    pub filter: T,
    pub callback: F,
}

/// The inner filter resolved as `r1`; the callback runs next in any case.
pub open spec fn then_rest<F: ThenFn>(r1: Resolution, callback: F, req: Request) -> Resolution {
    callback.spec_resolves(r1.0, req, r1.1)
}

/// A step of the inner filter resolves (`ready1`) as `r1`; when the step
/// as a whole resolves.
pub open spec fn then_ready<F: ThenFn>(ready1: bool, r1: Resolution, callback: F, req: Request) -> bool {
    ready1 && callback.spec_ready(r1.0, req, r1.1)
}

/// Where a step that reports "not ready" leaves the index: where the inner
/// filter left it while that waits, else where the callback's computation's
/// first step does.
pub open spec fn then_pending<F: ThenFn>(ready1: bool, pending1: nat, r1: Resolution, callback: F, req: Request) -> nat {
    if !ready1 {
        pending1
    } else {
        callback.spec_pending_index(r1.0, req, r1.1)
    }
}

impl<T: Filter, F: ThenFn> Filter for Then<T, F> {
    type Future = ThenFuture<T, F>;

    open spec fn extract(&self, req: Request, idx: nat) -> Resolution {
        then_rest(self.filter.extract(req, idx), self.callback, req)
    }

    open spec fn ready_at(&self, req: Request, idx: nat) -> bool {
        then_ready(self.filter.ready_at(req, idx), self.filter.extract(req, idx), self.callback, req)
    }

    open spec fn pending_index_at(&self, req: Request, idx: nat) -> nat {
        then_pending(
            self.filter.ready_at(req, idx),
            self.filter.pending_index_at(req, idx),
            self.filter.extract(req, idx),
            self.callback,
            req,
        )
    }

    fn filter(&self, route: &Route) -> (c: ThenFuture<T, F>) {
        ThenFuture { state: ThenState::First(self.filter.filter(route), self.callback.duplicate()) }
    }

    fn duplicate(&self) -> (r: Self) {
        Then { filter: self.filter.duplicate(), callback: self.callback.duplicate() }
    }
}

/// The computation of a [`Then`].
pub struct ThenFuture<T: Filter, F: ThenFn> {
    state: ThenState<T, F>,
}

enum ThenState<T: Filter, F: ThenFn> {
    First(T::Future, F),
    Second(F::Output),
    Done,
}

impl<T: Filter, F: ThenFn> Computation for ThenFuture<T, F> {
    closed spec fn is_complete(&self) -> bool {
        match self.state {
            ThenState::First(c1, _) => c1.is_complete(),
            ThenState::Second(c2) => c2.is_complete(),
            ThenState::Done => true,
        }
    }

    closed spec fn fits(&self, req: Request) -> bool {
        match self.state {
            ThenState::First(c1, _) => c1.fits(req),
            ThenState::Second(c2) => c2.fits(req),
            ThenState::Done => true,
        }
    }

    closed spec fn resolves(&self, req: Request, idx: nat) -> Resolution {
        match self.state {
            ThenState::First(c1, callback) => then_rest(c1.resolves(req, idx), callback, req),
            ThenState::Second(c2) => c2.resolves(req, idx),
            ThenState::Done => (Err(Seq::empty()), idx),
        }
    }

    closed spec fn ready(&self, req: Request, idx: nat) -> bool {
        match self.state {
            ThenState::First(c1, callback) => then_ready(c1.ready(req, idx), c1.resolves(req, idx), callback, req),
            ThenState::Second(c2) => c2.ready(req, idx),
            ThenState::Done => true,
        }
    }

    closed spec fn pending_index(&self, req: Request, idx: nat) -> nat {
        match self.state {
            ThenState::First(c1, callback) => then_pending(
                c1.ready(req, idx),
                c1.pending_index(req, idx),
                c1.resolves(req, idx),
                callback,
                req,
            ),
            ThenState::Second(c2) => c2.pending_index(req, idx),
            ThenState::Done => idx,
        }
    }

    fn poll(&mut self, route: &mut Route) -> (r: Result<Poll, Misuse>) {
        let mut state = ThenState::Done;
        core::mem::swap(&mut self.state, &mut state);
        let mut second = match state {
            ThenState::Done => return Err(Misuse::PolledAfterComplete),
            ThenState::First(mut first, callback) => match first.poll(route) {
                Ok(Poll::Ready(outcome)) => callback.call(outcome, route),
                Ok(Poll::Pending) => {
                    self.state = ThenState::First(first, callback);
                    return Ok(Poll::Pending);
                },
                Err(m) => return Err(m),
            },
            ThenState::Second(second) => second,
        };
        match second.poll(route) {
            Ok(Poll::Ready(outcome)) => Ok(Poll::Ready(outcome)),
            Ok(Poll::Pending) => {
                self.state = ThenState::Second(second);
                Ok(Poll::Pending)
            },
            Err(m) => Err(m),
        }
    }
}

} // verus!
