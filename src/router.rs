use vstd::prelude::*;

use crate::context::{is_bare, Context, Parameters, Response};
use crate::handler::{Handler, Reply};
use crate::method::{same_method, Method};
use crate::pattern::{compile_spec, match_spec, pair_views, Pattern, SegmentSpec};

verus! {

/// A route's method and compiled template accept a request.
pub open spec fn accepts(method: Method, segs: Seq<SegmentSpec>, req_method: Method, path: Seq<char>) -> bool {
    same_method(method, req_method) && match_spec(segs, path) is Some
}

/// `c` is `ctx` with `caps` installed as its parameters.
pub open spec fn routed(ctx: Context, c: Context, caps: Seq<(Seq<char>, Seq<char>)>) -> bool {
    &&& c.request_spec() == ctx.request_spec()
    &&& c.handle_spec() == ctx.handle_spec()
    &&& c.params_spec().entries() == caps
}

/// A handler bound to one method and one path template.
#[derive(Debug)]
pub struct Route<H> {
    method: Method,
    pattern: Pattern,
    handler: H,
}

impl<H> Route<H> {
    pub closed spec fn method_spec(&self) -> Method {
        self.method
    }

    pub closed spec fn pattern_spec(&self) -> Pattern {
        self.pattern
    }

    pub closed spec fn handler_spec(&self) -> H {
        self.handler
    }

    /// This route accepts a request with that method and path.
    pub open spec fn accepts(&self, method: Method, path: Seq<char>) -> bool {
        accepts(self.method_spec(), self.pattern_spec().segs(), method, path)
    }

    /// A route for `method` and the template `pattern`, compiled here.
    pub fn new(method: Method, pattern: &str, handler: H) -> (r: Route<H>)
        ensures
            r.method_spec() == method,
            r.pattern_spec().segs() == compile_spec(pattern@),
            r.pattern_spec().template() == pattern@,
            r.handler_spec() == handler,
    {
        Route { handler, pattern: Pattern::new(pattern), method }
    }

    /// The method.
    pub fn method(&self) -> (r: &Method)
        ensures
            *r == self.method_spec(),
    {
        &self.method
    }

    /// The compiled template.
    pub fn pattern(&self) -> (r: &Pattern)
        ensures
            *r == self.pattern_spec(),
    {
        &self.pattern
    }

    /// The handler.
    pub fn handler(&self) -> (r: &H)
        ensures
            *r == self.handler_spec(),
    {
        &self.handler
    }
}

impl<H: Handler> Route<H> {
    /// Calls the route's handler with `ctx`.
    pub fn call(&self, ctx: Context) -> (r: Reply)
        ensures
            self.handler_spec().replies(ctx, r),
    {
        self.handler.call(ctx)
    }
}

/// Routes in the order of registration; the first that accepts a request
/// handles it.
pub struct Router<H> {
    routes: Vec<Route<H>>,
}

impl<H> Router<H> {
    /// The routes, in the order of registration.
    pub closed spec fn routes(&self) -> Seq<Route<H>> {
        self.routes@
    }

    /// A router without routes.
    pub fn new() -> (r: Router<H>)
        ensures
            r.routes().len() == 0,
    {
        Router { routes: Vec::new() }
    }

    /// Registers a route after all earlier ones.
    pub fn add(&mut self, method: Method, pattern: &str, handler: H)
        ensures
            final(self).routes().len() == old(self).routes().len() + 1,
            final(self).routes().drop_last() == old(self).routes(),
            final(self).routes().last().method_spec() == method,
            final(self).routes().last().pattern_spec().segs() == compile_spec(pattern@),
            final(self).routes().last().handler_spec() == handler,
    {
        let route = Route::new(method, pattern, handler);
        self.routes.push(route);
        assert(self.routes@.drop_last() =~= old(self).routes@);
    }

    /// Registers a route that was built beforehand, after all earlier ones.
    pub fn add_route(&mut self, route: Route<H>)
        ensures
            final(self).routes() == old(self).routes().push(route),
    {
        self.routes.push(route);
    }

    /// The number of routes.
    pub fn len(&self) -> (r: usize)
        ensures
            r == self.routes().len(),
    {
        self.routes.len()
    }

    /// The route at `index`, in the order of registration.
    pub fn route(&self, index: usize) -> (r: &Route<H>)
        requires
            index < self.routes().len(),
        ensures
            *r == self.routes()[index as int],
    {
        &self.routes[index]
    }

    /// The first route that accepts `method` and `path`, with its captures;
    /// `None` when no route does.
    pub fn find(&self, method: &Method, path: &str) -> (r: Option<(usize, Vec<(String, String)>)>)
        ensures
            match r {
                Some((i, caps)) => {
                    &&& i < self.routes().len()
                    &&& self.routes()[i as int].accepts(*method, path@)
                    &&& Some(pair_views(caps@)) == match_spec(
                        self.routes()[i as int].pattern_spec().segs(),
                        path@,
                    )
                    &&& forall|j: int| 0 <= j < i ==> !#[trigger] self.routes()[j].accepts(*method, path@)
                },
                None => forall|j: int|
                    0 <= j < self.routes().len() ==> !#[trigger] self.routes()[j].accepts(*method, path@),
            },
    {
        let mut i: usize = 0;
        while i < self.routes.len()
            invariant
                i <= self.routes@.len(),
                forall|j: int| 0 <= j < i ==> !#[trigger] self.routes()[j].accepts(*method, path@),
            decreases self.routes@.len() - i,
        {
            let route = &self.routes[i];
            if route.method.eq(method) {
                let caps = route.pattern.match_path(path);
                match caps {
                    Some(c) => {
                        return Some((i, c));
                    },
                    None => {},
                }
            }
            i = i + 1;
        }
        None
    }
}

impl<H> Router<H> {
    /// Route `i` is the first that accepts the request of `ctx`.
    pub open spec fn chooses(&self, ctx: Context, i: int) -> bool {
        &&& 0 <= i < self.routes().len()
        &&& self.routes()[i].accepts(ctx.request_spec().method, ctx.request_spec().path@)
        &&& forall|j: int|
            0 <= j < i ==> !#[trigger] self.routes()[j].accepts(
                ctx.request_spec().method,
                ctx.request_spec().path@,
            )
    }

    /// No route accepts the request of `ctx`.
    pub open spec fn misses(&self, ctx: Context) -> bool {
        forall|j: int|
            0 <= j < self.routes().len() ==> !#[trigger] self.routes()[j].accepts(
                ctx.request_spec().method,
                ctx.request_spec().path@,
            )
    }

    /// The captures that route `i` takes from the request of `ctx`.
    pub open spec fn captures(&self, ctx: Context, i: int) -> Seq<(Seq<char>, Seq<char>)> {
        match_spec(self.routes()[i].pattern_spec().segs(), ctx.request_spec().path@)->0
    }

    /// Picks the route for the request of `ctx`: the index of the first
    /// route that accepts it, with the context carrying that route's
    /// captures as parameters; or the fixed not-found response when no
    /// route accepts it.
    pub fn route_context(&self, ctx: Context) -> (r: Result<(usize, Context), Response>)
        ensures
            match r {
                Ok((i, c)) => self.chooses(ctx, i as int) && routed(ctx, c, self.captures(ctx, i as int)),
                Err(resp) => self.misses(ctx) && is_bare(resp, 404),
            },
    {
        let mut ctx = ctx;
        let found = self.find(&ctx.request().method, ctx.request().path.as_str());
        match found {
            Some((i, caps)) => {
                ctx.set_params(Parameters::from_pairs(caps));
                Ok((i, ctx))
            },
            None => Err(Response::not_found()),
        }
    }
}

impl<H: Handler> Router<H> {
    /// Hands the context to the first route that accepts its request, with
    /// the captures installed as parameters, and returns that handler's
    /// reply; replies with the fixed not-found response, calling no handler,
    /// when no route accepts it.
    pub fn dispatch(&self, ctx: Context) -> (r: Reply)
        ensures
            self.replies(ctx, r),
    {
        match self.route_context(ctx) {
            Ok((i, c)) => self.routes[i].call(c),
            Err(resp) => Ok(resp),
        }
    }
}

/// Registration order decides between overlapping routes: when route `a`
/// accepts a request and `chosen` is the first route that accepts it, as
/// `find` reports, then `chosen` was registered no later than `a`.
pub proof fn lemma_earlier_route_wins<H>(
    router: Router<H>,
    method: Method,
    path: Seq<char>,
    a: int,
    chosen: int,
)
    requires
        0 <= a < router.routes().len(),
        router.routes()[a].accepts(method, path),
        0 <= chosen < router.routes().len(),
        forall|j: int| 0 <= j < chosen ==> !#[trigger] router.routes()[j].accepts(method, path),
    ensures
        chosen <= a,
{
}

impl<H: Handler> Handler for Router<H> {
    /// The reply of the first accepting route's handler, on the context with
    /// that route's captures; the fixed not-found response when none accepts.
    open spec fn replies(&self, ctx: Context, r: Reply) -> bool {
        ||| exists|i: int, c: Context|
            #![trigger self.chooses(ctx, i), routed(ctx, c, self.captures(ctx, i))]
            self.chooses(ctx, i) && routed(ctx, c, self.captures(ctx, i))
                && self.routes()[i].handler_spec().replies(c, r)
        ||| self.misses(ctx) && r is Ok && is_bare(r->Ok_0, 404)
    }

    fn call(&self, ctx: Context) -> (r: Reply) {
        self.dispatch(ctx)
    }
}

} // verus!
