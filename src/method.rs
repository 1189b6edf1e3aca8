use vstd::prelude::*;

verus! {

/// The HTTP request method of a request or of a route.
#[derive(Clone, Debug)]
pub enum Method {
    Options,
    Get,
    Post,
    Put,
    Delete,
    Head,
    Trace,
    Connect,
    Patch,
    /// Any other method, by its name.
    Extension(String),
}

/// Two methods are the same verb; extension methods compare by name.
pub open spec fn same_method(a: Method, b: Method) -> bool {
    match (a, b) {
        (Method::Options, Method::Options) => true,
        (Method::Get, Method::Get) => true,
        (Method::Post, Method::Post) => true,
        (Method::Put, Method::Put) => true,
        (Method::Delete, Method::Delete) => true,
        (Method::Head, Method::Head) => true,
        (Method::Trace, Method::Trace) => true,
        (Method::Connect, Method::Connect) => true,
        (Method::Patch, Method::Patch) => true,
        (Method::Extension(x), Method::Extension(y)) => x@ == y@,
        _ => false,
    }
}

impl PartialEq for Method {
    fn eq(&self, other: &Method) -> (r: bool) {
        match (self, other) {
            (Method::Options, Method::Options) => true,
            (Method::Get, Method::Get) => true,
            (Method::Post, Method::Post) => true,
            (Method::Put, Method::Put) => true,
            (Method::Delete, Method::Delete) => true,
            (Method::Head, Method::Head) => true,
            (Method::Trace, Method::Trace) => true,
            (Method::Connect, Method::Connect) => true,
            (Method::Patch, Method::Patch) => true,
            (Method::Extension(x), Method::Extension(y)) => x.eq(y),
            _ => false,
        }
    }
}

impl vstd::std_specs::cmp::PartialEqSpecImpl for Method {
    open spec fn obeys_eq_spec() -> bool {
        true
    }

    open spec fn eq_spec(&self, other: &Method) -> bool {
        same_method(*self, *other)
    }
}

} // verus!
