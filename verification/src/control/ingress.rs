//! What becomes of one connection to the daemon.

use vstd::prelude::*;
use vstd::string::*;

use crate::contract::control::{
    DaemonRequest, DaemonRequestView, OperatorError, OperatorErrorView,
};
use crate::state::decision::answer;
use crate::text::joined;

verus! {

/// What arrived on a connection.
#[derive(Debug, PartialEq, Eq)]
pub enum Arrival {
    /// The connection could not be read.
    Unreadable(String),
    /// The client closed without a request.
    Closed,
    /// The request could not be decoded.
    Undecodable(String),
    /// The client asked.
    Requested(DaemonRequest),
}

/// The request that arrived, or why there is none.
pub open spec fn arrived(arrival: Arrival) -> Result<DaemonRequestView, OperatorErrorView> {
    match arrival {
        Arrival::Unreadable(message) => Err(OperatorErrorView::TransportUnavailable(message@)),
        Arrival::Closed => Err(
            OperatorErrorView::Protocol("daemon client closed before sending a request"@),
        ),
        Arrival::Undecodable(message) => Err(
            OperatorErrorView::Protocol("daemon request was invalid JSON: "@ + message@),
        ),
        Arrival::Requested(request) => Ok(request@),
    }
}

/// Tells the request that arrived, or why there is none.
pub fn read_request(arrival: Arrival) -> (request: Result<DaemonRequest, OperatorError>)
    ensures
        answer(request) == arrived(arrival),
{
    match arrival {
        Arrival::Unreadable(message) => Err(OperatorError::TransportUnavailable(message)),
        Arrival::Closed => Err(
            OperatorError::Protocol("daemon client closed before sending a request".to_owned()),
        ),
        Arrival::Undecodable(message) => Err(
            OperatorError::Protocol(joined("daemon request was invalid JSON: ", message.as_str())),
        ),
        Arrival::Requested(request) => Ok(request),
    }
}

/// Why the daemon cannot serve.
#[derive(Debug, PartialEq, Eq)]
pub enum ServingFailure {
    /// Its endpoint could not be bound.
    Bind { endpoint: String, message: String },
    /// A connection could not be accepted.
    Accept { message: String },
    /// The worker of a connection could not be started.
    Worker { message: String },
}

/// Tells why the daemon cannot serve.
pub fn serving_failure(failure: ServingFailure) -> (error: OperatorError)
    ensures
        error@ == OperatorErrorView::TransportUnavailable(
            match failure {
                ServingFailure::Bind { endpoint, message } => "daemon endpoint "@ + endpoint@
                    + " could not bind: "@ + message@,
                ServingFailure::Accept { message } => "daemon endpoint could not accept: "@
                    + message@,
                ServingFailure::Worker { message } => "daemon connection worker could not start: "@
                    + message@,
            },
        ),
{
    match failure {
        ServingFailure::Bind { endpoint, message } => {
            let mut text = joined("daemon endpoint ", endpoint.as_str());
            text.append(" could not bind: ");
            text.append(message.as_str());
            OperatorError::TransportUnavailable(text)
        },
        ServingFailure::Accept { message } => OperatorError::TransportUnavailable(
            joined("daemon endpoint could not accept: ", message.as_str()),
        ),
        ServingFailure::Worker { message } => OperatorError::TransportUnavailable(
            joined("daemon connection worker could not start: ", message.as_str()),
        ),
    }
}

} // verus!
