//! Sequence: run two filters in order and concatenate their values.
use vstd::prelude::*;
use crate::filter::{Computation, Filter, Poll, Misuse, Resolution};
use crate::route::{Request, Route};
use crate::value::Value;

verus! {

/// Runs `first`, then `second` on what is left of the request.
#[derive(Clone, Copy, Debug)]
pub struct And<T, U> {
    pub first: T,
    pub second: U,
}

/// Appends the values `x` of an earlier stage to a later stage's resolution.
pub open spec fn prepend(x: Seq<Value>, r: Resolution) -> Resolution {
    match r.0 {
        Ok(y) => (Ok(x + y), r.1),
        Err(e) => (Err(e), r.1),
    }
}

/// The first stage resolved as `r1`; on success the second filter runs next.
pub open spec fn and_rest<U: Filter>(r1: Resolution, second: U, req: Request) -> Resolution {
    match r1.0 {
        Ok(x) => prepend(x, second.extract(req, r1.1)),
        Err(e) => (Err(e), r1.1),
    }
}

/// A step of the first stage resolves (`ready1`) as `r1`; the step resolves
/// when the first stage fails, or when the second is ready at once.
pub open spec fn and_ready<U: Filter>(ready1: bool, r1: Resolution, second: U, req: Request) -> bool {
    ready1 && (r1.0 is Err || second.ready_at(req, r1.1))
}

/// Where a step that reports "not ready" leaves the index: where the first
/// stage left it while that waits, else where the second's first step does.
pub open spec fn and_pending<U: Filter>(
    ready1: bool,
    pending1: nat,
    r1: Resolution,
    second: U,
    req: Request,
) -> nat {
    if !ready1 {
        pending1
    } else {
        second.pending_index_at(req, r1.1)
    }
}

impl<T: Filter, U: Filter> Filter for And<T, U> {
    type Future = AndFuture<T, U>;

    open spec fn extract(&self, req: Request, idx: nat) -> Resolution {
        and_rest(self.first.extract(req, idx), self.second, req)
    }

    open spec fn ready_at(&self, req: Request, idx: nat) -> bool {
        and_ready(self.first.ready_at(req, idx), self.first.extract(req, idx), self.second, req)
    }

    open spec fn pending_index_at(&self, req: Request, idx: nat) -> nat {
        and_pending(
            self.first.ready_at(req, idx),
            self.first.pending_index_at(req, idx),
            self.first.extract(req, idx),
            self.second,
            req,
        )
    }

    fn filter(&self, route: &Route) -> (c: AndFuture<T, U>) {
        AndFuture { state: AndState::First(self.first.filter(route), self.second.duplicate()) }
    }

    fn duplicate(&self) -> (r: Self) {
        And { first: self.first.duplicate(), second: self.second.duplicate() }
    }
}

/// The computation of an [`And`].
pub struct AndFuture<T: Filter, U: Filter> {
    state: AndState<T, U>,
}

enum AndState<T: Filter, U: Filter> {
    First(T::Future, U),
    Second(Vec<Value>, U::Future),
    Done,
}

impl<T: Filter, U: Filter> Computation for AndFuture<T, U> {
    closed spec fn is_complete(&self) -> bool {
        match self.state {
            AndState::First(c1, _) => c1.is_complete(),
            AndState::Second(_, c2) => c2.is_complete(),
            AndState::Done => true,
        }
    }

    closed spec fn fits(&self, req: Request) -> bool {
        match self.state {
            AndState::First(c1, _) => c1.fits(req),
            AndState::Second(_, c2) => c2.fits(req),
            AndState::Done => true,
        }
    }

    closed spec fn resolves(&self, req: Request, idx: nat) -> Resolution {
        match self.state {
            AndState::First(c1, second) => and_rest(c1.resolves(req, idx), second, req),
            AndState::Second(x, c2) => prepend(x@, c2.resolves(req, idx)),
            AndState::Done => (Err(Seq::empty()), idx),
        }
    }

    closed spec fn ready(&self, req: Request, idx: nat) -> bool {
        match self.state {
            AndState::First(c1, second) => and_ready(c1.ready(req, idx), c1.resolves(req, idx), second, req),
            AndState::Second(_, c2) => c2.ready(req, idx),
            AndState::Done => true,
        }
    }

    closed spec fn pending_index(&self, req: Request, idx: nat) -> nat {
        match self.state {
            AndState::First(c1, second) => and_pending(
                c1.ready(req, idx),
                c1.pending_index(req, idx),
                c1.resolves(req, idx),
                second,
                req,
            ),
            AndState::Second(_, c2) => c2.pending_index(req, idx),
            AndState::Done => idx,
        }
    }

    fn poll(&mut self, route: &mut Route) -> (r: Result<Poll, Misuse>) {
        let mut state = AndState::Done;
        core::mem::swap(&mut self.state, &mut state);
        match state {
            AndState::Done => Err(Misuse::PolledAfterComplete),
            AndState::First(mut first, second) => {
                let ex1 = match first.poll(route) {
                    Ok(Poll::Ready(Ok(ex1))) => ex1,
                    Ok(Poll::Ready(Err(err))) => return Ok(Poll::Ready(Err(err))),
                    Ok(Poll::Pending) => {
                        self.state = AndState::First(first, second);
                        return Ok(Poll::Pending);
                    },
                    Err(m) => return Err(m),
                };
                let mut fut2 = second.filter(route);
                match fut2.poll(route) {
                    Ok(Poll::Ready(Ok(ex2))) => {
                        let mut ex1 = ex1;
                        let mut ex2 = ex2;
                        ex1.append(&mut ex2);
                        Ok(Poll::Ready(Ok(ex1)))
                    },
                    Ok(Poll::Ready(Err(err))) => Ok(Poll::Ready(Err(err))),
                    Ok(Poll::Pending) => {
                        self.state = AndState::Second(ex1, fut2);
                        Ok(Poll::Pending)
                    },
                    Err(m) => Err(m),
                }
            },
            AndState::Second(ex1, mut second) => {
                match second.poll(route) {
                    Ok(Poll::Ready(Ok(ex2))) => {
                        let mut ex1 = ex1;
                        let mut ex2 = ex2;
                        ex1.append(&mut ex2);
                        Ok(Poll::Ready(Ok(ex1)))
                    },
                    Ok(Poll::Ready(Err(err))) => Ok(Poll::Ready(Err(err))),
                    Ok(Poll::Pending) => {
                        self.state = AndState::Second(ex1, second);
                        Ok(Poll::Pending)
                    },
                    Err(m) => Err(m),
                }
            },
        }
    }
}

} // verus!
