//! Dispatch core of an asynchronous HTTP framework: path patterns, an ordered
//! router, handler and middleware composition, the per-request context, a
//! pull-style reader over a chunked body, and the conversion of a handler's
//! outcome into a response.

pub mod body;
pub mod context;
pub mod ext;
pub mod handler;
pub mod method;
pub mod pattern;
pub mod router;
pub mod service;

pub use body::{Body, Polled, ReadError};
pub use context::{Context, Parameters, Request, Response};
pub use ext::FutureExt;
pub use handler::{Handler, HandlerError, Middleware, Reply, Stack, Wrapped};
pub use method::Method;
pub use pattern::{Pattern, Segment};
pub use router::{Route, Router};
pub use service::{conclude, default_catch, Outcome};
