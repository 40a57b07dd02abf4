//! Normalization: collapse an alternative whose arms carry the same shape.
use vstd::prelude::*;
use crate::filter::{Computation, Filter, Poll, Misuse, Resolution};
use crate::route::{Request, Route};
use crate::value::{unified, unify_values};

verus! {

/// Yields the values of whichever arm of `filter`'s alternative matched.
#[derive(Clone, Copy, Debug)]
pub struct Unify<F> {
    pub filter: F,
}

/// `r` with an alternative collapsed to its arm's values.
pub open spec fn unify_resolution(r: Resolution) -> Resolution {
    match r.0 {
        Ok(x) => (Ok(unified(x)), r.1),
        Err(e) => (Err(e), r.1),
    }
}

impl<F: Filter> Filter for Unify<F> {
    type Future = UnifyFuture<F::Future>;

    open spec fn extract(&self, req: Request, idx: nat) -> Resolution {
        unify_resolution(self.filter.extract(req, idx))
    }

    open spec fn ready_at(&self, req: Request, idx: nat) -> bool {
        self.filter.ready_at(req, idx)
    }

    open spec fn pending_index_at(&self, req: Request, idx: nat) -> nat {
        self.filter.pending_index_at(req, idx)
    }

    fn filter(&self, route: &Route) -> (c: UnifyFuture<F::Future>) {
        UnifyFuture { inner: self.filter.filter(route) }
    }

    fn duplicate(&self) -> (r: Self) {
        Unify { filter: self.filter.duplicate() }
    }
}

/// The computation of a [`Unify`].
pub struct UnifyFuture<F> {
    inner: F,
}

impl<F: Computation> Computation for UnifyFuture<F> {
    closed spec fn is_complete(&self) -> bool {
        self.inner.is_complete()
    }

    closed spec fn fits(&self, req: Request) -> bool {
        self.inner.fits(req)
    }

    closed spec fn resolves(&self, req: Request, idx: nat) -> Resolution {
        unify_resolution(self.inner.resolves(req, idx))
    }

    closed spec fn ready(&self, req: Request, idx: nat) -> bool {
        self.inner.ready(req, idx)
    }

    closed spec fn pending_index(&self, req: Request, idx: nat) -> nat {
        self.inner.pending_index(req, idx)
    }

    fn poll(&mut self, route: &mut Route) -> (r: Result<Poll, Misuse>) {
        match self.inner.poll(route) {
            Ok(Poll::Ready(Ok(ex))) => Ok(Poll::Ready(Ok(unify_values(ex)))),
            Ok(Poll::Ready(Err(err))) => Ok(Poll::Ready(Err(err))),
            Ok(Poll::Pending) => Ok(Poll::Pending),
            Err(m) => Err(m),
        }
    }
}

} // verus!
