//! The execution adapter: one routing context per request, owned by the
//! computation that the request's filter starts.
use vstd::prelude::*;
use crate::filter::{Computation, Filter, Poll, Misuse, Resolution, outcome_view};
use crate::route::{Request, Route};

verus! {

/// Serves requests with one composed filter.
#[derive(Clone, Copy, Debug)]
pub struct FilteredService<F> {
    filter: F,
}

impl<F: Filter> FilteredService<F> {
    pub fn new(filter: F) -> (r: FilteredService<F>)
        ensures
            r.filter() == filter,
    {
        FilteredService { filter }
    }

    pub closed spec fn filter(&self) -> F {
        self.filter
    }

    /// Establishes the routing context of a request with these path segments
    /// and headers, and starts the filter's computation on it.
    pub fn call(
        &self,
        method: String,
        segments: Vec<String>,
        headers: Vec<(String, String)>,
        remote_addr: Option<String>,
    ) -> (r: FilteredFuture<F::Future>)
        ensures
            r.wf(),
            !r.is_complete(),
            r.request() == (Request { method, segments: segments@, headers: headers@, remote_addr }),
            r.index() == 0,
            r.result() == self.filter().extract(r.request(), 0),
            r.ready() == self.filter().ready_at(r.request(), 0),
            r.pending_index() == self.filter().pending_index_at(r.request(), 0),
    {
        let route = Route::new(method, segments, headers, remote_addr);
        let future = self.filter.filter(&route);
        FilteredFuture { future, route }
    }
}

/// A request in flight: the filter's computation and the routing context it
/// owns.
pub struct FilteredFuture<C> {
    future: C,
    route: Route,
}

impl<C: Computation> FilteredFuture<C> {
    pub closed spec fn wf(&self) -> bool {
        self.route.wf() && self.future.fits(self.route@.request)
    }

    pub closed spec fn is_complete(&self) -> bool {
        self.future.is_complete()
    }

    pub closed spec fn request(&self) -> Request {
        self.route@.request
    }

    pub closed spec fn index(&self) -> nat {
        self.route@.index
    }

    /// What driving the request to completion yields.
    pub closed spec fn result(&self) -> Resolution {
        self.future.resolves(self.route@.request, self.route@.index)
    }

    /// The next step resolves.
    pub closed spec fn ready(&self) -> bool {
        self.future.ready(self.route@.request, self.route@.index)
    }

    /// Where the next step leaves the matched-path index when it reports
    /// "not ready".
    pub closed spec fn pending_index(&self) -> nat {
        self.future.pending_index(self.route@.request, self.route@.index)
    }

    /// How many path segments the filters have consumed so far.
    pub fn matched_path_index(&self) -> (r: usize)
        ensures
            r as nat == self.index(),
    {
        self.route.matched_path_index()
    }

    /// Drives the request one step.
    pub fn poll(&mut self) -> (r: Result<Poll, Misuse>)
        requires
            old(self).wf(),
        ensures
            final(self).wf(),
            final(self).request() == old(self).request(),
            old(self).is_complete() ==> r == Err::<Poll, Misuse>(Misuse::PolledAfterComplete)
                && final(self).is_complete(),
            !old(self).is_complete() ==> (old(self).ready() <==> r matches Ok(Poll::Ready(_))),
            !old(self).is_complete() ==> match r {
                Ok(Poll::Ready(o)) => final(self).is_complete()
                    && (outcome_view(o), final(self).index()) == old(self).result(),
                Ok(Poll::Pending) => !final(self).is_complete() && final(self).index() == old(self).pending_index()
                    && final(self).result() == old(self).result(),
                Err(_) => false,
            },
    {
        self.future.poll(&mut self.route)
    }
}

} // verus!
