//! Remembers the first failure of durable state, and refuses everything after it.

use vstd::prelude::*;

use crate::contract::control::{OperatorError, OperatorErrorView};
use crate::text::optional;

verus! {

/// The failure that stopped the daemon from serving, if there was one.
pub struct Refusal {
    first: Option<OperatorError>,
}

impl View for Refusal {
    type V = Option<OperatorErrorView>;

    closed spec fn view(&self) -> Option<OperatorErrorView> {
        optional(self.first)
    }
}

impl Refusal {
    /// Nothing is refused yet.
    pub fn new() -> (refusal: Refusal)
        ensures
            refusal@ is None,
    {
        Refusal { first: None }
    }

    /// Refuses with the recorded failure, if there is one.
    pub fn check(&self) -> (served: Result<(), OperatorError>)
        ensures
            match served {
                Ok(()) => self@ is None,
                Err(error) => self@ == Some(error@),
            },
    {
        match &self.first {
            Some(error) => Err(error.clone()),
            None => Ok(()),
        }
    }

    /// Records a failure. Only the first one counts.
    pub fn record(&mut self, error: OperatorError)
        ensures
            final(self)@ == (if old(self)@ is Some {
                old(self)@
            } else {
                Some(error@)
            }),
    {
        if self.first.is_none() {
            self.first = Some(error);
        }
    }

    /// Records a failure of durable state; any other failure is not recorded.
    pub fn record_state(&mut self, error: &OperatorError)
        ensures
            final(self)@ == (if old(self)@ is Some || !(error@ is State) {
                old(self)@
            } else {
                Some(error@)
            }),
    {
        match error {
            OperatorError::State(_) => self.record(error.clone()),
            _ => {},
        }
    }
}

} // verus!
