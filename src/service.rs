use vstd::prelude::*;

use crate::context::{is_bare, Response};
use crate::handler::{HandlerError, Reply};

verus! {

/// How the handling of one request ended, before its response is written.
pub enum Outcome {
    /// The wire request could not be decoded; no handler ran.
    Undecodable,
    /// The handler chain trapped while it ran.
    Trapped,
    /// The handler chain gave this reply.
    Finished(Reply),
}

/// The catch-all conversion of a failure: the fixed internal-error response.
/// It runs no application code.
pub fn default_catch(err: HandlerError) -> (r: Response)
    ensures
        is_bare(r, 500),
{
    Response::internal_error()
}

/// The one response for a request: a handler's response as it is, and the
/// fixed internal-error response for every failure, trap or undecodable
/// request.
pub fn conclude(outcome: Outcome) -> (r: Response)
    ensures
        match outcome {
            Outcome::Finished(Ok(resp)) => r == resp,
            _ => is_bare(r, 500),
        },
{
    match outcome {
        Outcome::Finished(Ok(resp)) => resp,
        Outcome::Finished(Err(err)) => default_catch(err),
        Outcome::Trapped => Response::internal_error(),
        Outcome::Undecodable => Response::internal_error(),
    }
}

} // verus!
