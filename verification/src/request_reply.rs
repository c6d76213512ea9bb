//! The plain request/reply protocol: admission of a connecting peer.

use vstd::prelude::*;

verus! {

/// Errors a request/reply service returns.
#[derive(Clone, Debug, PartialEq, Eq)]
pub enum ServiceError {
    /// The peer is not allowed to connect.
    NotAuthorized {},
}

impl ServiceError {
    /// The display text of the error.
    pub fn text(&self) -> (r: String)
        ensures
            r@ == "Not authorized."@,
    {
        "Not authorized.".to_owned()
    }
}

/// Admits a connecting peer. Without an auth guard (`None`) every peer is
/// admitted; with one, the guard's verdict decides.
pub fn admission(verdict: Option<bool>) -> (r: Result<(), ServiceError>)
    ensures
        r is Ok <==> (verdict is None || verdict == Some(true)),
        r is Err ==> r == Err::<(), ServiceError>(ServiceError::NotAuthorized {}),
{
    match verdict {
        None => Ok(()),
        Some(true) => Ok(()),
        Some(false) => Err(ServiceError::NotAuthorized {}),
    }
}

/// What was read from a request/reply connection.
#[derive(PartialEq, Eq, Structural, Clone, Copy, Debug)]
pub enum RequestRead {
    /// A frame holding a request the service understands.
    Request,
    /// A frame that does not hold such a request.
    Malformed,
    /// The connection ended or reading failed.
    Ended,
}

/// What the connection loop does with it.
#[derive(PartialEq, Eq, Structural, Clone, Copy, Debug)]
pub enum ServeAction {
    /// Serve the request and send the reply.
    Serve,
    /// Skip the frame and read the next one.
    Skip,
    /// Leave the loop.
    Stop,
}

/// A request is served, a malformed frame skipped, and the loop ends with
/// the connection.
pub fn serve_decision(read: RequestRead) -> (r: ServeAction)
    ensures
        r == match read {
            RequestRead::Request => ServeAction::Serve,
            RequestRead::Malformed => ServeAction::Skip,
            RequestRead::Ended => ServeAction::Stop,
        },
{
    match read {
        RequestRead::Request => ServeAction::Serve,
        RequestRead::Malformed => ServeAction::Skip,
        RequestRead::Ended => ServeAction::Stop,
    }
}

} // verus!
