//! Minimal leaf filters: a path segment, a header, a filter that always
//! matches, and a wrapper that makes a computation wait.
use vstd::prelude::*;
use crate::filter::{Computation, Filter, Poll, Misuse, Resolution};
use crate::reject::{Cause, Rejection};
use crate::route::{Request, Route, find_header};
use crate::value::Value;

verus! {

/// Matches the next path segment against `segment` and consumes it.
#[derive(Clone, Debug)]
pub struct Path {
    pub segment: String,
}

pub open spec fn path_resolution(segment: String, req: Request, idx: nat) -> Resolution {
    if idx < req.segments.len() && req.segments[idx as int]@ == segment@ {
        (Ok(Seq::empty()), idx + 1)
    } else {
        (Err(seq![Cause::NotFound]), idx)
    }
}

impl Filter for Path {
    type Future = PathFuture;

    open spec fn extract(&self, req: Request, idx: nat) -> Resolution {
        path_resolution(self.segment, req, idx)
    }

    open spec fn ready_at(&self, req: Request, idx: nat) -> bool {
        true
    }

    open spec fn pending_index_at(&self, req: Request, idx: nat) -> nat {
        idx
    }

    fn filter(&self, route: &Route) -> (c: PathFuture) {
        PathFuture { segment: self.segment.clone(), complete: false }
    }

    fn duplicate(&self) -> (r: Self) {
        Path { segment: self.segment.clone() }
    }
}

/// The computation of a [`Path`].
pub struct PathFuture {
    segment: String,
    complete: bool,
}

impl Computation for PathFuture {
    closed spec fn is_complete(&self) -> bool {
        self.complete
    }

    closed spec fn fits(&self, req: Request) -> bool {
        true
    }

    closed spec fn resolves(&self, req: Request, idx: nat) -> Resolution {
        path_resolution(self.segment, req, idx)
    }

    closed spec fn ready(&self, req: Request, idx: nat) -> bool {
        true
    }

    closed spec fn pending_index(&self, req: Request, idx: nat) -> nat {
        idx
    }

    fn poll(&mut self, route: &mut Route) -> (r: Result<Poll, Misuse>) {
        if self.complete {
            return Err(Misuse::PolledAfterComplete);
        }
        self.complete = true;
        let idx = route.matched_path_index();
        if idx < route.segment_count() && *route.segment(idx) == self.segment {
            route.reset_matched_path_index(idx + 1);
            Ok(Poll::Ready(Ok(Vec::new())))
        } else {
            Ok(Poll::Ready(Err(Rejection::not_found())))
        }
    }
}

/// Extracts the value of the header `name`.
#[derive(Clone, Debug)]
pub struct Header {
    pub name: String,
}

pub open spec fn header_resolution(name: String, req: Request, idx: nat) -> Resolution {
    match find_header(req.headers, name@) {
        Some(v) => (Ok(seq![Value::Text(v)]), idx),
        None => (Err(seq![Cause::MissingHeader(name)]), idx),
    }
}

impl Filter for Header {
    type Future = HeaderFuture;

    open spec fn extract(&self, req: Request, idx: nat) -> Resolution {
        header_resolution(self.name, req, idx)
    }

    open spec fn ready_at(&self, req: Request, idx: nat) -> bool {
        true
    }

    open spec fn pending_index_at(&self, req: Request, idx: nat) -> nat {
        idx
    }

    fn filter(&self, route: &Route) -> (c: HeaderFuture) {
        HeaderFuture { name: self.name.clone(), complete: false }
    }

    fn duplicate(&self) -> (r: Self) {
        Header { name: self.name.clone() }
    }
}

/// The computation of a [`Header`].
pub struct HeaderFuture {
    name: String,
    complete: bool,
}

impl Computation for HeaderFuture {
    closed spec fn is_complete(&self) -> bool {
        self.complete
    }

    closed spec fn fits(&self, req: Request) -> bool {
        true
    }

    closed spec fn resolves(&self, req: Request, idx: nat) -> Resolution {
        header_resolution(self.name, req, idx)
    }

    closed spec fn ready(&self, req: Request, idx: nat) -> bool {
        true
    }

    closed spec fn pending_index(&self, req: Request, idx: nat) -> nat {
        idx
    }

    fn poll(&mut self, route: &mut Route) -> (r: Result<Poll, Misuse>) {
        if self.complete {
            return Err(Misuse::PolledAfterComplete);
        }
        self.complete = true;
        match route.header(&self.name) {
            Some(v) => {
                let mut values: Vec<Value> = Vec::new();
                values.push(Value::Text(v));
                Ok(Poll::Ready(Ok(values)))
            },
            None => Ok(Poll::Ready(Err(Rejection::new(Cause::MissingHeader(self.name.clone()))))),
        }
    }
}

/// Matches every request and extracts nothing.
#[derive(Clone, Copy, Debug)]
pub struct Any;

impl Filter for Any {
    type Future = AnyFuture;

    open spec fn extract(&self, req: Request, idx: nat) -> Resolution {
        (Ok(Seq::empty()), idx)
    }

    open spec fn ready_at(&self, req: Request, idx: nat) -> bool {
        true
    }

    open spec fn pending_index_at(&self, req: Request, idx: nat) -> nat {
        idx
    }

    fn filter(&self, route: &Route) -> (c: AnyFuture) {
        AnyFuture { complete: false }
    }

    fn duplicate(&self) -> (r: Self) {
        Any
    }
}

/// The computation of an [`Any`].
pub struct AnyFuture {
    complete: bool,
}

impl Computation for AnyFuture {
    closed spec fn is_complete(&self) -> bool {
        self.complete
    }

    closed spec fn fits(&self, req: Request) -> bool {
        true
    }

    closed spec fn resolves(&self, req: Request, idx: nat) -> Resolution {
        (Ok(Seq::empty()), idx)
    }

    closed spec fn ready(&self, req: Request, idx: nat) -> bool {
        true
    }

    closed spec fn pending_index(&self, req: Request, idx: nat) -> nat {
        idx
    }

    fn poll(&mut self, route: &mut Route) -> (r: Result<Poll, Misuse>) {
        if self.complete {
            return Err(Misuse::PolledAfterComplete);
        }
        self.complete = true;
        Ok(Poll::Ready(Ok(Vec::new())))
    }
}

/// Behaves as `filter`, but its computation first reports "not ready"
/// `ticks` times, as a filter waiting on outside input does.
#[derive(Clone, Copy, Debug)]
pub struct Delay<T> {
    pub filter: T,
    pub ticks: usize,
}

impl<T: Filter> Filter for Delay<T> {
    type Future = DelayFuture<T>;

    open spec fn extract(&self, req: Request, idx: nat) -> Resolution {
        self.filter.extract(req, idx)
    }

    open spec fn ready_at(&self, req: Request, idx: nat) -> bool {
        self.ticks == 0 && self.filter.ready_at(req, idx)
    }

    open spec fn pending_index_at(&self, req: Request, idx: nat) -> nat {
        if self.ticks > 0 {
            idx
        } else {
            self.filter.pending_index_at(req, idx)
        }
    }

    fn filter(&self, route: &Route) -> (c: DelayFuture<T>) {
        DelayFuture { remaining: self.ticks, inner: self.filter.filter(route) }
    }

    fn duplicate(&self) -> (r: Self) {
        Delay { filter: self.filter.duplicate(), ticks: self.ticks }
    }
}

/// The computation of a [`Delay`].
pub struct DelayFuture<T: Filter> {
    remaining: usize,
    inner: T::Future,
}

impl<T: Filter> Computation for DelayFuture<T> {
    closed spec fn is_complete(&self) -> bool {
        self.inner.is_complete()
    }

    closed spec fn fits(&self, req: Request) -> bool {
        &&& self.inner.fits(req)
        &&& self.remaining > 0 ==> !self.inner.is_complete()
    }

    closed spec fn resolves(&self, req: Request, idx: nat) -> Resolution {
        self.inner.resolves(req, idx)
    }

    closed spec fn ready(&self, req: Request, idx: nat) -> bool {
        self.remaining == 0 && self.inner.ready(req, idx)
    }

    closed spec fn pending_index(&self, req: Request, idx: nat) -> nat {
        if self.remaining > 0 {
            idx
        } else {
            self.inner.pending_index(req, idx)
        }
    }

    fn poll(&mut self, route: &mut Route) -> (r: Result<Poll, Misuse>) {
        if self.remaining > 0 {
            self.remaining = self.remaining - 1;
            return Ok(Poll::Pending);
        }
        self.inner.poll(route)
    }
}

} // verus!
