//! The per-request routing context.
use vstd::prelude::*;

verus! {

/// What a request offers to filters: its method, path segments, headers and
/// the address it came from, when known.
pub struct Request {
    pub method: String,
    pub segments: Seq<String>,
    pub headers: Seq<(String, String)>,
    pub remote_addr: Option<String>,
}

/// A routing context: the request, and how many path segments the filters
/// evaluated so far have consumed.
pub struct RouteView {
    pub request: Request,
    pub index: nat,
}

/// The value of the first header named `name`, if any.
pub open spec fn find_header(headers: Seq<(String, String)>, name: Seq<char>) -> Option<String>
    decreases headers.len(),
{
    if headers.len() == 0 {
        None
    } else if headers[0].0@ == name {
        Some(headers[0].1)
    } else {
        find_header(headers.drop_first(), name)
    }
}

/// The routing context of one request.
pub struct Route {
    method: String,
    segments: Vec<String>,
    headers: Vec<(String, String)>,
    remote_addr: Option<String>,
    matched: usize,
}

impl View for Route {
    type V = RouteView;

    closed spec fn view(&self) -> RouteView {
        RouteView {
            request: Request {
                method: self.method,
                segments: self.segments@,
                headers: self.headers@,
                remote_addr: self.remote_addr,
            },
            index: self.matched as nat,
        }
    }
}

impl Route {
    /// The matched-path cursor never passes the end of the path.
    pub open spec fn wf(&self) -> bool {
        self@.index <= self@.request.segments.len()
    }

    pub fn new(
        method: String,
        segments: Vec<String>,
        headers: Vec<(String, String)>,
        remote_addr: Option<String>,
    ) -> (r: Route)
        ensures
            r@.request == (Request { method, segments: segments@, headers: headers@, remote_addr }),
            r@.index == 0,
            r.wf(),
    {
        Route { method, segments, headers, remote_addr, matched: 0 }
    }

    pub fn method(&self) -> (r: &String)
        ensures
            *r == self@.request.method,
    {
        &self.method
    }

    pub fn remote_addr(&self) -> (r: &Option<String>)
        ensures
            *r == self@.request.remote_addr,
    {
        &self.remote_addr
    }

    pub fn matched_path_index(&self) -> (r: usize)
        ensures
            r as nat == self@.index,
    {
        self.matched
    }

    pub fn reset_matched_path_index(&mut self, index: usize)
        requires
            index <= old(self)@.request.segments.len(),
        ensures
            final(self)@.request == old(self)@.request,
            final(self)@.index == index as nat,
            final(self).wf(),
    {
        self.matched = index;
    }

    pub fn segment_count(&self) -> (r: usize)
        ensures
            r as nat == self@.request.segments.len(),
    {
        self.segments.len()
    }

    pub fn segment(&self, i: usize) -> (r: &String)
        requires
            i < self@.request.segments.len(),
        ensures
            *r == self@.request.segments[i as int],
    {
        &self.segments[i]
    }

    /// The value of the first header named `name`.
    pub fn header(&self, name: &String) -> (r: Option<String>)
        ensures
            r == find_header(self@.request.headers, name@),
    {
        let ghost hs = self.headers@;
        let mut i: usize = 0;
        assert(hs.subrange(0, hs.len() as int) =~= hs);
        while i < self.headers.len()
            invariant
                i <= hs.len(),
                hs == self.headers@,
                find_header(hs, name@) == find_header(hs.subrange(i as int, hs.len() as int), name@),
            decreases hs.len() - i,
        {
            let ghost rest = hs.subrange(i as int, hs.len() as int);
            assert(rest.drop_first() =~= hs.subrange(i + 1, hs.len() as int));
            if self.headers[i].0 == *name {
                return Some(self.headers[i].1.clone());
            }
            i = i + 1;
        }
        assert(hs.subrange(i as int, hs.len() as int).len() == 0);
        None
    }
}

} // verus!
