//! Normalization: open a single tuple into its members.
use vstd::prelude::*;
use crate::filter::{Computation, Filter, Poll, Misuse, Resolution};
use crate::route::{Request, Route};
use crate::value::{untupled, untuple_values};

verus! {

/// Yields the members of the single tuple that `filter` yields.
#[derive(Clone, Copy, Debug)]
pub struct UntupleOne<F> {
    pub filter: F,
}

/// `r` with a single tuple opened.
pub open spec fn untuple_resolution(r: Resolution) -> Resolution {
    match r.0 {
        Ok(x) => (Ok(untupled(x)), r.1),
        Err(e) => (Err(e), r.1),
    }
}

impl<F: Filter> Filter for UntupleOne<F> {
    type Future = UntupleOneFuture<F>;

    open spec fn extract(&self, req: Request, idx: nat) -> Resolution {
        untuple_resolution(self.filter.extract(req, idx))
    }

    open spec fn ready_at(&self, req: Request, idx: nat) -> bool {
        self.filter.ready_at(req, idx)
    }

    open spec fn pending_index_at(&self, req: Request, idx: nat) -> nat {
        self.filter.pending_index_at(req, idx)
    }

    fn filter(&self, route: &Route) -> (c: UntupleOneFuture<F>) {
        UntupleOneFuture { extract: self.filter.filter(route) }
    }

    fn duplicate(&self) -> (r: Self) {
        UntupleOne { filter: self.filter.duplicate() }
    }
}

/// The computation of a [`UntupleOne`].
pub struct UntupleOneFuture<F: Filter> {
    extract: F::Future,
}

impl<F: Filter> Computation for UntupleOneFuture<F> {
    closed spec fn is_complete(&self) -> bool {
        self.extract.is_complete()
    }

    closed spec fn fits(&self, req: Request) -> bool {
        self.extract.fits(req)
    }

    closed spec fn resolves(&self, req: Request, idx: nat) -> Resolution {
        untuple_resolution(self.extract.resolves(req, idx))
    }

    closed spec fn ready(&self, req: Request, idx: nat) -> bool {
        self.extract.ready(req, idx)
    }

    closed spec fn pending_index(&self, req: Request, idx: nat) -> nat {
        self.extract.pending_index(req, idx)
    }

    fn poll(&mut self, route: &mut Route) -> (r: Result<Poll, Misuse>) {
        match self.extract.poll(route) {
            Ok(Poll::Ready(Ok(ex))) => Ok(Poll::Ready(Ok(untuple_values(ex)))),
            Ok(Poll::Ready(Err(err))) => Ok(Poll::Ready(Err(err))),
            Ok(Poll::Pending) => Ok(Poll::Pending),
            Err(m) => Err(m),
        }
    }
}

} // verus!
