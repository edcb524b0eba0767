//! Reads one-shot diagnostics after an independent cursor.

use vstd::prelude::*;

use crate::contract::control::{
    durable_range, invalid_request, OperationDiagnosticPayload, OperationDiagnostics,
    OperationDiagnosticsRequest, OperatorError,
};
use crate::contract::target::TargetDiagnostic;
use crate::control::refusal::Refusal;
use crate::state::decision::answer;
use crate::state::diagnostic::diagnostics_read;
use crate::json::JsonView;
use crate::state::tables::Tables;
use crate::target::stream::diagnostic_told;

verus! {

/// A difficulty that the target told of, as it is recorded.
pub open spec fn recorded_as(diagnostic: TargetDiagnostic) -> OperationDiagnosticPayload {
    match diagnostic {
        TargetDiagnostic::ProviderRetrying { attempt, max_retries, retry_delay_ms } =>
            OperationDiagnosticPayload::ProviderRetrying { attempt, max_retries, retry_delay_ms },
        TargetDiagnostic::AuthenticationFailed => OperationDiagnosticPayload::AuthenticationFailed,
        TargetDiagnostic::DiagnosticUnclassified =>
            OperationDiagnosticPayload::DiagnosticUnclassified,
    }
}

/// Tells a difficulty of the target as it is recorded.
pub fn normalize(diagnostic: TargetDiagnostic) -> (payload: OperationDiagnosticPayload)
    ensures
        payload == recorded_as(diagnostic),
{
    match diagnostic {
        TargetDiagnostic::ProviderRetrying { attempt, max_retries, retry_delay_ms } =>
            OperationDiagnosticPayload::ProviderRetrying { attempt, max_retries, retry_delay_ms },
        TargetDiagnostic::AuthenticationFailed => OperationDiagnosticPayload::AuthenticationFailed,
        TargetDiagnostic::DiagnosticUnclassified =>
            OperationDiagnosticPayload::DiagnosticUnclassified,
    }
}

/// Whatever an event of the provider tells is recorded as a valid diagnostic.
pub proof fn told_diagnostics_are_valid(event: JsonView)
    ensures
        diagnostic_told(event) matches Some(diagnostic) ==> recorded_as(diagnostic).is_valid(),
{
}

/// Refuses a wait whose end cannot be represented.
pub fn bounded_wait(representable: bool) -> (bounded: Result<(), OperatorError>)
    ensures
        match bounded {
            Ok(()) => representable,
            Err(error) => !representable && error@ == invalid_request(
                "diagnostic wait duration cannot be represented"@,
            ),
        },
{
    if representable {
        Ok(())
    } else {
        Err(
            OperatorError::InvalidRequest(
                "diagnostic wait duration cannot be represented".to_owned(),
            ),
        )
    }
}

/// Begins a wait for diagnostics, before any state is read: first the cursor must be in the durable
/// range, then the end of the wait must be representable.
pub fn begin_wait(request: &OperationDiagnosticsRequest, representable: bool) -> (answer: Result<
    (),
    OperatorError,
>)
    ensures
        match answer {
            Ok(()) => durable_range(request.after_diagnostic_sequence) && representable,
            Err(error) => if !durable_range(request.after_diagnostic_sequence) {
                error@ == invalid_request("diagnostic cursor exceeds the supported durable range"@)
            } else {
                !representable && error@ == invalid_request(
                    "diagnostic wait duration cannot be represented"@,
                )
            },
        },
{
    match request.validate() {
        Ok(()) => bounded_wait(representable),
        Err(error) => Err(error),
    }
}

/// Reads the diagnostics of an operation for a waiting caller: nothing is read once a refusal was
/// recorded.
pub fn diagnostics(refusal: &Refusal, tables: &Tables, request: &OperationDiagnosticsRequest) -> (
found: Result<OperationDiagnostics, OperatorError>)
    requires
        tables.well_formed(),
    ensures
        answer(found) == (match refusal@ {
            Some(error) => Err(error),
            None => diagnostics_read(
                tables@,
                request.operation_id,
                request.after_diagnostic_sequence,
            ),
        }),
{
    match refusal.check() {
        Ok(()) => tables.get_operation_diagnostics(
            request.operation_id,
            request.after_diagnostic_sequence,
        ),
        Err(error) => Err(error),
    }
}

/// Whether a wait ends with diagnostics as they were read.
pub fn wait_ends(snapshot: &OperationDiagnostics, deadline_passed: bool) -> (ends: bool)
    ensures
        ends == (snapshot@.diagnostics.len() > 0 || snapshot@.operation.state.is_terminal()
            || deadline_passed),
{
    snapshot.diagnostics.len() > 0 || snapshot.operation.state.terminal() || deadline_passed
}

} // verus!
