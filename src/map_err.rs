//! Transform: apply a synchronous callback to a failure.
use vstd::prelude::*;
use crate::filter::{Computation, Filter, MapErrFn, Poll, Misuse, Resolution};
use crate::route::{Request, Route};

verus! {

/// Yields `filter`'s values, or what `callback` makes of its failure.
#[derive(Clone, Copy, Debug)]
pub struct MapErr<T, F> {
    pub filter: T,
    pub callback: F,
}

/// `r` with the callback applied to its failure.
pub open spec fn map_err_resolution<F: MapErrFn>(r: Resolution, callback: F) -> Resolution {
    match r.0 {
        Ok(x) => (Ok(x), r.1),
        Err(e) => (Err(callback.spec_call(e)), r.1),
    }
}

impl<T: Filter, F: MapErrFn> Filter for MapErr<T, F> {
    type Future = MapErrFuture<T, F>;

    open spec fn extract(&self, req: Request, idx: nat) -> Resolution {
        map_err_resolution(self.filter.extract(req, idx), self.callback)
    }

    open spec fn ready_at(&self, req: Request, idx: nat) -> bool {
        self.filter.ready_at(req, idx)
    }

    open spec fn pending_index_at(&self, req: Request, idx: nat) -> nat {
        self.filter.pending_index_at(req, idx)
    }

    fn filter(&self, route: &Route) -> (c: MapErrFuture<T, F>) {
        MapErrFuture { extract: self.filter.filter(route), callback: self.callback.duplicate() }
    }

    fn duplicate(&self) -> (r: Self) {
        MapErr { filter: self.filter.duplicate(), callback: self.callback.duplicate() }
    }
}

/// The computation of a [`MapErr`].
pub struct MapErrFuture<T: Filter, F> {
    extract: T::Future,
    callback: F,
}

impl<T: Filter, F: MapErrFn> Computation for MapErrFuture<T, F> {
    closed spec fn is_complete(&self) -> bool {
        self.extract.is_complete()
    }

    closed spec fn fits(&self, req: Request) -> bool {
        self.extract.fits(req)
    }

    closed spec fn resolves(&self, req: Request, idx: nat) -> Resolution {
        map_err_resolution(self.extract.resolves(req, idx), self.callback)
    }

    closed spec fn ready(&self, req: Request, idx: nat) -> bool {
        self.extract.ready(req, idx)
    }

    closed spec fn pending_index(&self, req: Request, idx: nat) -> nat {
        self.extract.pending_index(req, idx)
    }

    fn poll(&mut self, route: &mut Route) -> (r: Result<Poll, Misuse>) {
        match self.extract.poll(route) {
            Ok(Poll::Ready(Ok(ex))) => Ok(Poll::Ready(Ok(ex))),
            Ok(Poll::Ready(Err(err))) => Ok(Poll::Ready(Err(self.callback.call(err)))),
            Ok(Poll::Pending) => Ok(Poll::Pending),
            Err(m) => Err(m),
        }
    }
}

} // verus!
