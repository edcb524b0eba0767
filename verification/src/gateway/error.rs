//! The failures that the gateway tells its caller.

use vstd::prelude::*;

use crate::contract::control::{OperatorError, OperatorErrorView};

verus! {

/// Why a tool call failed.
#[derive(Debug, PartialEq, Eq)]
pub enum GatewayError {
    /// The arguments of a tool were refused.
    InvalidArguments { message: String },
    /// The gateway itself failed.
    GatewayFailure { message: String },
    /// The daemon refused, with its failure in words.
    Operator { error: OperatorError, message: String },
}

/// The mathematical content of [`GatewayError`].
#[verifier::ext_equal]
pub enum GatewayErrorView {
    InvalidArguments { message: Seq<char> },
    GatewayFailure { message: Seq<char> },
    Operator { error: OperatorErrorView, message: Seq<char> },
}

impl View for GatewayError {
    type V = GatewayErrorView;

    open spec fn view(&self) -> GatewayErrorView {
        match *self {
            GatewayError::InvalidArguments { message } => GatewayErrorView::InvalidArguments {
                message: message@,
            },
            GatewayError::GatewayFailure { message } => GatewayErrorView::GatewayFailure {
                message: message@,
            },
            GatewayError::Operator { error, message } => GatewayErrorView::Operator {
                error: error@,
                message: message@,
            },
        }
    }
}

impl Clone for GatewayError {
    fn clone(&self) -> (copy: Self)
        ensures
            copy@ == self@,
    {
        match self {
            GatewayError::InvalidArguments { message } => GatewayError::InvalidArguments {
                message: message.clone(),
            },
            GatewayError::GatewayFailure { message } => GatewayError::GatewayFailure {
                message: message.clone(),
            },
            GatewayError::Operator { error, message } => GatewayError::Operator {
                error: error.clone(),
                message: message.clone(),
            },
        }
    }
}

impl GatewayError {
    /// Refuses the arguments of a tool.
    pub fn invalid(message: String) -> (error: Self)
        ensures
            error@ == (GatewayErrorView::InvalidArguments { message: message@ }),
    {
        GatewayError::InvalidArguments { message }
    }

    /// Tells a failure of the gateway.
    pub fn failure(message: String) -> (error: Self)
        ensures
            error@ == (GatewayErrorView::GatewayFailure { message: message@ }),
    {
        GatewayError::GatewayFailure { message }
    }

    /// Tells a failure of the daemon, with its words.
    pub fn operator(error: OperatorError) -> (told: Self)
        ensures
            told@ == (GatewayErrorView::Operator { error: error@, message: error@.text() }),
    {
        let message = error.to_text();
        GatewayError::Operator { error, message }
    }
}

/// What a gateway decision yields.
pub open spec fn projected<T: View>(result: Result<T, GatewayError>) -> Result<
    T::V,
    GatewayErrorView,
> {
    match result {
        Ok(value) => Ok(value@),
        Err(error) => Err(error@),
    }
}

/// A refusal of arguments.
pub open spec fn refused_arguments(message: Seq<char>) -> GatewayErrorView {
    GatewayErrorView::InvalidArguments { message }
}

} // verus!
