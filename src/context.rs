use vstd::prelude::*;

use crate::body::Body;
use crate::method::Method;
use crate::pattern::pair_views;
use tokio_core::reactor::Handle;

verus! {

/// Handle of the event loop that a request is served on.
#[verifier::external_type_specification]
#[verifier::external_body]
pub struct ExHandle(Handle);

/// The value that the last pair named `name` carries, if any.
pub open spec fn lookup(entries: Seq<(Seq<char>, Seq<char>)>, name: Seq<char>) -> Option<Seq<char>>
    decreases entries.len(),
{
    if entries.len() == 0 {
        None
    } else if entries.last().0 == name {
        Some(entries.last().1)
    } else {
        lookup(entries.drop_last(), name)
    }
}

/// The parameters that a route captured, in template order; a later pair
/// overrides an earlier one of the same name.
#[derive(Clone, Debug)]
pub struct Parameters {
    entries: Vec<(String, String)>,
}

impl Parameters {
    /// The captured `(name, value)` pairs, in template order.
    pub closed spec fn entries(&self) -> Seq<(Seq<char>, Seq<char>)> {
        pair_views(self.entries@)
    }

    /// No parameters.
    pub fn new() -> (r: Parameters)
        ensures
            r.entries() == Seq::<(Seq<char>, Seq<char>)>::empty(),
    {
        Parameters { entries: Vec::new() }
    }

    /// The parameters of the given captures, in their order.
    pub fn from_pairs(pairs: Vec<(String, String)>) -> (r: Parameters)
        ensures
            r.entries() == pair_views(pairs@),
    {
        Parameters { entries: pairs }
    }

    /// The number of captured pairs.
    pub fn len(&self) -> (r: usize)
        ensures
            r == self.entries().len(),
    {
        self.entries.len()
    }

    /// The value of the parameter `name`: that of its last pair.
    pub fn get(&self, name: &str) -> (r: Option<String>)
        ensures
            match r {
                Some(v) => lookup(self.entries(), name@) == Some(v@),
                None => lookup(self.entries(), name@) is None,
            },
    {
        let key = String::from_str(name);
        let mut i: usize = self.entries.len();
        assert(self.entries().take(i as int) =~= self.entries());
        while i > 0
            invariant
                i <= self.entries@.len(),
                key@ == name@,
                lookup(self.entries(), name@) == lookup(self.entries().take(i as int), name@),
            decreases i,
        {
            let ghost before = self.entries().take(i as int);
            assert(before.drop_last() =~= self.entries().take(i - 1));
            assert(before.last() == (self.entries@[i - 1].0@, self.entries@[i - 1].1@));
            i = i - 1;
            if self.entries[i].0.eq(&key) {
                return Some(self.entries[i].1.clone());
            }
        }
        None
    }
}

/// A decoded request.
#[derive(Debug)]
pub struct Request {
    pub method: Method,
    pub path: String,
    pub headers: Vec<(String, String)>,
    pub body: Body,
}

/// A response: status code, headers and body bytes.
#[derive(Clone, Debug)]
pub struct Response {
    pub status: u16,
    pub headers: Vec<(String, String)>,
    pub body: Vec<u8>,
}

/// A response with this status, no headers and an empty body.
pub open spec fn is_bare(r: Response, status: u16) -> bool {
    &&& r.status == status
    &&& r.headers@.len() == 0
    &&& r.body@.len() == 0
}

impl Response {
    /// An empty response with status 200.
    pub fn new() -> (r: Response)
        ensures
            is_bare(r, 200),
    {
        Response::with_status(200)
    }

    /// An empty response with the given status.
    pub fn with_status(status: u16) -> (r: Response)
        ensures
            is_bare(r, status),
    {
        Response { status, headers: Vec::new(), body: Vec::new() }
    }

    /// The fixed response for a request that no route matches: 404, empty.
    pub fn not_found() -> (r: Response)
        ensures
            is_bare(r, 404),
    {
        Response::with_status(404)
    }

    /// The fixed response for a handler that failed or trapped: 500, empty.
    pub fn internal_error() -> (r: Response)
        ensures
            is_bare(r, 500),
    {
        Response::with_status(500)
    }
}

/// What a request carries through the handler chain: the request, the
/// parameters that routing captured, and the event loop's handle.
pub struct Context {
    handle: Handle,
    request: Request,
    params: Parameters,
}

impl Context {
    /// The parameters installed so far.
    pub closed spec fn params_spec(&self) -> Parameters {
        self.params
    }

    /// The event loop's handle.
    pub closed spec fn handle_spec(&self) -> Handle {
        self.handle
    }

    /// The request.
    pub closed spec fn request_spec(&self) -> Request {
        self.request
    }

    /// A fresh context for `request`, with no parameters.
    pub fn new(handle: Handle, request: Request) -> (r: Context)
        ensures
            r.handle_spec() == handle,
            r.request_spec() == request,
            r.params_spec().entries().len() == 0,
    {
        Context { handle, request, params: Parameters::new() }
    }

    /// The request.
    pub fn request(&self) -> (r: &Request)
        ensures
            *r == self.request_spec(),
    {
        &self.request
    }

    /// Takes the request's body out, to read it; an empty body stays behind.
    pub fn take_body(&mut self) -> (r: Body)
        ensures
            r.stream_of() == old(self).request_spec().body.stream_of(),
            r.pending() == old(self).request_spec().body.pending(),
            old(self).request_spec().body.wf() ==> r.wf(),
            final(self).request_spec().body.pending() is None,
            final(self).request_spec().path == old(self).request_spec().path,
            final(self).params_spec() == old(self).params_spec(),
            final(self).handle_spec() == old(self).handle_spec(),
    {
        self.request.body.take()
    }

    /// The parameters that routing captured.
    pub fn params(&self) -> (r: &Parameters)
        ensures
            *r == self.params_spec(),
    {
        &self.params
    }

    /// Installs the parameters of a route match.
    pub fn set_params(&mut self, params: Parameters)
        ensures
            final(self).params_spec() == params,
            final(self).request_spec() == old(self).request_spec(),
            final(self).handle_spec() == old(self).handle_spec(),
    {
        self.params = params;
    }

    /// The handle of the event loop, to schedule further work on it.
    pub fn handle(&self) -> (r: &Handle)
        ensures
            *r == self.handle_spec(),
    {
        &self.handle
    }
}

} // verus!
