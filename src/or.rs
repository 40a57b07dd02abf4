//! Alternative: try a first filter, and on failure rewind the matched path
//! and try a second.
use vstd::prelude::*;
use crate::filter::{Computation, Filter, Poll, Misuse, Resolution};
use crate::reject::{Cause, combined};
use crate::route::{Request, Route};
use crate::value::{Arm, either, either_of};

verus! {

/// Yields `Either::A` of `first`'s values, or else `Either::B` of `second`'s.
#[derive(Clone, Copy, Debug)]
pub struct Or<T, U> {
    pub first: T,
    pub second: U,
}

/// The first alternative failed with `e1`; the second, started from the
/// recorded index `orig`, resolved as `r2`.
pub open spec fn or_rest(e1: Seq<Cause>, r2: Resolution, orig: nat) -> Resolution {
    match r2.0 {
        Ok(y) => (Ok(either_of(Arm::B, y)), r2.1),
        Err(e2) => (Err(combined(e1, e2)), orig),
    }
}

/// The first alternative resolved as `r1`, having started from `orig`.
pub open spec fn or_first<U: Filter>(r1: Resolution, second: U, req: Request, orig: nat) -> Resolution {
    match r1.0 {
        Ok(x) => (Ok(either_of(Arm::A, x)), r1.1),
        Err(e1) => or_rest(e1, second.extract(req, orig), orig),
    }
}

/// A step of the first alternative resolves (`ready1`) as `r1`; the step
/// resolves when the first succeeds, or when the second, started from
/// `orig`, is ready at once.
pub open spec fn or_ready<U: Filter>(ready1: bool, r1: Resolution, second: U, req: Request, orig: nat) -> bool {
    ready1 && (r1.0 is Ok || second.ready_at(req, orig))
}

/// Where a step that reports "not ready" leaves the index: where the first
/// alternative left it while that waits (no rewind happens then), else where
/// the second's first step, started from `orig`, does.
pub open spec fn or_pending<U: Filter>(ready1: bool, pending1: nat, second: U, req: Request, orig: nat) -> nat {
    if !ready1 {
        pending1
    } else {
        second.pending_index_at(req, orig)
    }
}

impl<T: Filter, U: Filter> Filter for Or<T, U> {
    type Future = EitherFuture<T, U>;

    open spec fn extract(&self, req: Request, idx: nat) -> Resolution {
        or_first(self.first.extract(req, idx), self.second, req, idx)
    }

    open spec fn ready_at(&self, req: Request, idx: nat) -> bool {
        or_ready(self.first.ready_at(req, idx), self.first.extract(req, idx), self.second, req, idx)
    }

    open spec fn pending_index_at(&self, req: Request, idx: nat) -> nat {
        or_pending(self.first.ready_at(req, idx), self.first.pending_index_at(req, idx), self.second, req, idx)
    }

    fn filter(&self, route: &Route) -> (c: EitherFuture<T, U>) {
        let idx = route.matched_path_index();
        EitherFuture {
            state: OrState::First(self.first.filter(route), self.second.duplicate()),
            original_path_index: PathIndex(idx),
        }
    }

    fn duplicate(&self) -> (r: Self) {
        Or { first: self.first.duplicate(), second: self.second.duplicate() }
    }
}

/// The computation of an [`Or`].
pub struct EitherFuture<T: Filter, U: Filter> {
    state: OrState<T, U>,
    original_path_index: PathIndex,
}

enum OrState<T: Filter, U: Filter> {
    First(T::Future, U),
    Second(crate::reject::Rejection, U::Future),
    Done,
}

/// The matched-path index recorded before the first alternative ran.
pub struct PathIndex(pub usize);

impl PathIndex {
    /// Rewinds the routing context to the recorded index.
    pub fn reset_path(&self, route: &mut Route)
        requires
            self.0 <= old(route)@.request.segments.len(),
        ensures
            final(route)@.request == old(route)@.request,
            final(route)@.index == self.0 as nat,
            final(route).wf(),
    {
        route.reset_matched_path_index(self.0);
    }
}

impl<T: Filter, U: Filter> Computation for EitherFuture<T, U> {
    closed spec fn is_complete(&self) -> bool {
        match self.state {
            OrState::First(c1, _) => c1.is_complete(),
            OrState::Second(_, c2) => c2.is_complete(),
            OrState::Done => true,
        }
    }

    closed spec fn fits(&self, req: Request) -> bool {
        &&& self.original_path_index.0 <= req.segments.len()
        &&& match self.state {
            OrState::First(c1, _) => c1.fits(req),
            OrState::Second(_, c2) => c2.fits(req),
            OrState::Done => true,
        }
    }

    closed spec fn resolves(&self, req: Request, idx: nat) -> Resolution {
        let orig = self.original_path_index.0 as nat;
        match self.state {
            OrState::First(c1, second) => or_first(c1.resolves(req, idx), second, req, orig),
            OrState::Second(e1, c2) => or_rest(e1@, c2.resolves(req, idx), orig),
            OrState::Done => (Err(Seq::empty()), idx),
        }
    }

    closed spec fn ready(&self, req: Request, idx: nat) -> bool {
        let orig = self.original_path_index.0 as nat;
        match self.state {
            OrState::First(c1, second) => or_ready(c1.ready(req, idx), c1.resolves(req, idx), second, req, orig),
            OrState::Second(_, c2) => c2.ready(req, idx),
            OrState::Done => true,
        }
    }

    closed spec fn pending_index(&self, req: Request, idx: nat) -> nat {
        let orig = self.original_path_index.0 as nat;
        match self.state {
            OrState::First(c1, second) => or_pending(c1.ready(req, idx), c1.pending_index(req, idx), second, req, orig),
            OrState::Second(_, c2) => c2.pending_index(req, idx),
            OrState::Done => idx,
        }
    }

    fn poll(&mut self, route: &mut Route) -> (r: Result<Poll, Misuse>) {
        let mut state = OrState::Done;
        core::mem::swap(&mut self.state, &mut state);
        match state {
            OrState::Done => Err(Misuse::PolledAfterComplete),
            OrState::First(mut first, second) => {
                let err1 = match first.poll(route) {
                    Ok(Poll::Ready(Ok(ex1))) => return Ok(Poll::Ready(Ok(either(Arm::A, ex1)))),
                    Ok(Poll::Ready(Err(err1))) => err1,
                    Ok(Poll::Pending) => {
                        self.state = OrState::First(first, second);
                        return Ok(Poll::Pending);
                    },
                    Err(m) => return Err(m),
                };
                self.original_path_index.reset_path(route);
                let mut fut2 = second.filter(route);
                match fut2.poll(route) {
                    Ok(Poll::Ready(Ok(ex2))) => Ok(Poll::Ready(Ok(either(Arm::B, ex2)))),
                    Ok(Poll::Ready(Err(err2))) => {
                        self.original_path_index.reset_path(route);
                        Ok(Poll::Ready(Err(err1.combine(err2))))
                    },
                    Ok(Poll::Pending) => {
                        self.state = OrState::Second(err1, fut2);
                        Ok(Poll::Pending)
                    },
                    Err(m) => Err(m),
                }
            },
            OrState::Second(err1, mut second) => {
                match second.poll(route) {
                    Ok(Poll::Ready(Ok(ex2))) => Ok(Poll::Ready(Ok(either(Arm::B, ex2)))),
                    Ok(Poll::Ready(Err(err2))) => {
                        self.original_path_index.reset_path(route);
                        Ok(Poll::Ready(Err(err1.combine(err2))))
                    },
                    Ok(Poll::Pending) => {
                        self.state = OrState::Second(err1, second);
                        Ok(Poll::Pending)
                    },
                    Err(m) => Err(m),
                }
            },
        }
    }
}

} // verus!
