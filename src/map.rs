//! Transform: apply a synchronous callback to the extracted values.
use vstd::prelude::*;
use crate::filter::{Computation, Filter, MapFn, Poll, Misuse, Resolution};
use crate::route::{Request, Route};

verus! {

/// Yields what `callback` makes of `filter`'s values.
#[derive(Clone, Copy, Debug)]
pub struct MapFilter<T, F> {
    pub filter: T,
    pub callback: F,
}

/// `r` with the callback applied to its values.
pub open spec fn map_resolution<F: MapFn>(r: Resolution, callback: F) -> Resolution {
    match r.0 {
        Ok(x) => (Ok(callback.spec_call(x)), r.1),
        Err(e) => (Err(e), r.1),
    }
}

impl<T: Filter, F: MapFn> Filter for MapFilter<T, F> {
    type Future = MapFuture<T, F>;

    open spec fn extract(&self, req: Request, idx: nat) -> Resolution {
        map_resolution(self.filter.extract(req, idx), self.callback)
    }

    open spec fn ready_at(&self, req: Request, idx: nat) -> bool {
        self.filter.ready_at(req, idx)
    }

    open spec fn pending_index_at(&self, req: Request, idx: nat) -> nat {
        self.filter.pending_index_at(req, idx)
    }

    fn filter(&self, route: &Route) -> (c: MapFuture<T, F>) {
        MapFuture { extract: self.filter.filter(route), callback: self.callback.duplicate() }
    }

    fn duplicate(&self) -> (r: Self) {
        MapFilter { filter: self.filter.duplicate(), callback: self.callback.duplicate() }
    }
}

/// The computation of a [`MapFilter`].
pub struct MapFuture<T: Filter, F> {
    extract: T::Future,
    callback: F,
}

impl<T: Filter, F: MapFn> Computation for MapFuture<T, F> {
    closed spec fn is_complete(&self) -> bool {
        self.extract.is_complete()
    }

    closed spec fn fits(&self, req: Request) -> bool {
        self.extract.fits(req)
    }

    closed spec fn resolves(&self, req: Request, idx: nat) -> Resolution {
        map_resolution(self.extract.resolves(req, idx), self.callback)
    }

    closed spec fn ready(&self, req: Request, idx: nat) -> bool {
        self.extract.ready(req, idx)
    }

    closed spec fn pending_index(&self, req: Request, idx: nat) -> nat {
        self.extract.pending_index(req, idx)
    }

    fn poll(&mut self, route: &mut Route) -> (r: Result<Poll, Misuse>) {
        match self.extract.poll(route) {
            Ok(Poll::Ready(Ok(ex))) => Ok(Poll::Ready(Ok(self.callback.call(ex)))),
            Ok(Poll::Ready(Err(err))) => Ok(Poll::Ready(Err(err))),
            Ok(Poll::Pending) => Ok(Poll::Pending),
            Err(m) => Err(m),
        }
    }
}

} // verus!
