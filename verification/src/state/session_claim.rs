//! Decodes one durable session-writer claim reference.

use vstd::prelude::*;

use crate::contract::control::{state_failure, OperatorError};
use crate::contract::identity::OperationId;
use crate::identifier::{parse_uuid, uuid_parsed};
use crate::text::joined;

verus! {

/// The operation a stored claim names. Text that is no UUID is a failure of durable state.
pub fn operation_id(value: String) -> (decoded: Result<OperationId, OperatorError>)
    ensures
        match uuid_parsed(value@) {
            Ok(uuid) => decoded == Ok::<OperationId, OperatorError>(OperationId(uuid)),
            Err(message) => decoded is Err && decoded->Err_0@ == state_failure(
                "active session operation id was not a UUID: "@ + message,
            ),
        },
{
    match parse_uuid(value.as_str()) {
        Ok(uuid) => Ok(OperationId::new_exact(uuid)),
        Err(message) => Err(
            OperatorError::State(
                joined("active session operation id was not a UUID: ", message.as_str()),
            ),
        ),
    }
}

} // verus!
