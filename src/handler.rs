use vstd::prelude::*;

use crate::context::{Context, Response};

verus! {

/// A failure that a handler reports instead of a response.
#[derive(Clone, Debug)]
pub struct HandlerError {
    pub message: String,
}

/// What a handler gives back: a response, or a failure for the catch-all.
pub type Reply = Result<Response, HandlerError>;

/// Something that turns a request's context into a reply.
pub trait Handler {
    /// `r` is a reply that this handler may give for `ctx`.
    spec fn replies(&self, ctx: Context, r: Reply) -> bool;

    fn call(&self, ctx: Context) -> (r: Reply)
        ensures
            self.replies(ctx, r),
    ;
}

/// A layer around a handler: it sees the context first, decides whether and
/// how to call the handler it wraps, and sees that handler's reply last.
pub trait Middleware {
    /// `r` is a reply that this layer may give for `ctx` around `next`.
    spec fn wraps<H: Handler>(&self, ctx: Context, next: H, r: Reply) -> bool;

    fn wrap<H: Handler>(&self, ctx: Context, next: &H) -> (r: Reply)
        ensures
            self.wraps(ctx, *next, r),
    ;
}

/// A handler wrapped in one layer of middleware.
pub struct Wrapped<M, H> {
    pub middleware: M,
    pub next: H,
}

impl<M: Middleware, H: Handler> Handler for Wrapped<M, H> {
    open spec fn replies(&self, ctx: Context, r: Reply) -> bool {
        self.middleware.wraps(ctx, self.next, r)
    }

    fn call(&self, ctx: Context) -> (r: Reply) {
        self.middleware.wrap(ctx, &self.next)
    }
}

/// A root handler with middleware around it. The middleware added last is
/// the outermost layer: it sees the request first and the reply last.
pub struct Stack<H> {
    pub handler: H,
}

impl<H: Handler> Stack<H> {
    /// A stack of the root handler alone.
    pub fn new(root: H) -> (r: Stack<H>)
        ensures
            r.handler == root,
    {
        Stack { handler: root }
    }

    /// Wraps the whole stack so far in `middleware`, as a new outermost layer.
    pub fn add<M: Middleware>(self, middleware: M) -> (r: Stack<Wrapped<M, H>>)
        ensures
            r.handler.middleware == middleware,
            r.handler.next == self.handler,
    {
        Stack { handler: Wrapped { middleware, next: self.handler } }
    }
}

impl<H: Handler> Handler for Stack<H> {
    open spec fn replies(&self, ctx: Context, r: Reply) -> bool {
        self.handler.replies(ctx, r)
    }

    fn call(&self, ctx: Context) -> (r: Reply) {
        self.handler.call(ctx)
    }
}

} // verus!
