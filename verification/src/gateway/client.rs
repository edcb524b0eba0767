//! What becomes of one exchange with the daemon.

use vstd::prelude::*;

use crate::contract::control::{
    DaemonEnvelope, DaemonResponse, DaemonResponseView, OperatorError, OperatorErrorView,
};
use crate::state::decision::answer;
use crate::text::joined;

verus! {

/// How far an exchange came.
#[derive(Debug, PartialEq, Eq)]
pub enum Exchange {
    /// The request could not be encoded.
    Unencodable(String),
    /// The daemon could not be reached, written to, or read from.
    Unavailable(String),
    /// The daemon closed without a response.
    Closed,
    /// The response could not be decoded.
    Undecodable(String),
    /// The daemon answered.
    Answered(DaemonEnvelope),
}

/// What an exchange yields: the answer of the daemon, or why there is none.
pub open spec fn exchanged(exchange: Exchange) -> Result<DaemonResponseView, OperatorErrorView> {
    match exchange {
        Exchange::Unencodable(message) => Err(OperatorErrorView::Protocol(message@)),
        Exchange::Unavailable(message) => Err(OperatorErrorView::TransportUnavailable(message@)),
        Exchange::Closed => Err(
            OperatorErrorView::TransportUnavailable("daemon closed before sending a response"@),
        ),
        Exchange::Undecodable(message) => Err(
            OperatorErrorView::Protocol("daemon response was invalid JSON: "@ + message@),
        ),
        Exchange::Answered(envelope) => answer(envelope.result),
    }
}

/// Tells what an exchange yields.
pub fn call(exchange: Exchange) -> (result: Result<DaemonResponse, OperatorError>)
    ensures
        answer(result) == exchanged(exchange),
{
    match exchange {
        Exchange::Unencodable(message) => Err(OperatorError::Protocol(message)),
        Exchange::Unavailable(message) => Err(OperatorError::TransportUnavailable(message)),
        Exchange::Closed => Err(
            OperatorError::TransportUnavailable(
                "daemon closed before sending a response".to_owned(),
            ),
        ),
        Exchange::Undecodable(message) => Err(
            OperatorError::Protocol(
                joined("daemon response was invalid JSON: ", message.as_str()),
            ),
        ),
        Exchange::Answered(envelope) => envelope.result,
    }
}

} // verus!
