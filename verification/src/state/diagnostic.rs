//! Durable, provider-neutral diagnostics of covered one-shot operations.

use vstd::prelude::*;

use crate::contract::control::{
    conflict, durable_range, invalid_request, state_failure, OperationDiagnostic,
    OperationDiagnosticPayload, OperationDiagnostics, OperationDiagnosticsView, OperationState,
    OperatorError, OperatorErrorView,
};
use crate::contract::identity::{ConversationId, OperationId};
use crate::identifier::uuid_text;
use crate::state::decision::{answer, changed, decision, Decided};
use crate::keyed::lookup;
use crate::state::tables::{Change, ChangeView, Tables, TablesView};
use crate::text::views;

verus! {

/// The highest sequence number among diagnostics, or zero.
pub open spec fn highest_diagnostic(diagnostics: Seq<OperationDiagnostic>) -> u64
    decreases diagnostics.len(),
{
    if diagnostics.len() == 0 {
        0
    } else {
        let rest = highest_diagnostic(diagnostics.drop_last());
        let last = diagnostics.last().diagnostic_sequence;
        if last > rest {
            last
        } else {
            rest
        }
    }
}

/// What recording a diagnostic yields: only a valid one, of a running and covered operation, gets
/// the next number and is appended.
pub open spec fn diagnostic_recorded(
    tables: TablesView,
    operation_id: OperationId,
    payload: OperationDiagnosticPayload,
) -> Result<(OperationDiagnostic, Seq<ChangeView>), OperatorErrorView> {
    if !payload.is_valid() {
        Err(invalid_request("provider retry attempt must be within its positive maximum"@))
    } else {
        match tables.operation(operation_id) {
            None => Err(OperatorErrorView::UnknownOperation(uuid_text(operation_id.0))),
            Some(operation) => if operation.state != OperationState::Running {
                Err(
                    conflict(
                        "operation diagnostics can be appended only while the operation is running"@,
                    ),
                )
            } else {
                match lookup(tables.diagnostics, operation_id) {
                    None => Err(
                        OperatorErrorView::DiagnosticsUnavailable(uuid_text(operation_id.0)),
                    ),
                    Some(record) => {
                        let highest = highest_diagnostic(record.diagnostics);
                        if highest >= i64::MAX {
                            Err(state_failure("diagnostic sequence exhausted durable range"@))
                        } else {
                            let diagnostic = OperationDiagnostic {
                                operation_id,
                                diagnostic_sequence: (highest + 1) as u64,
                                payload,
                            };
                            Ok((diagnostic, seq![ChangeView::AppendDiagnostic(diagnostic)]))
                        }
                    },
                }
            },
        }
    }
}

/// The diagnostics after a cursor.
pub open spec fn diagnostics_after(
    diagnostics: Seq<OperationDiagnostic>,
    cursor: u64,
) -> Seq<OperationDiagnostic> {
    diagnostics.filter(
        |diagnostic: OperationDiagnostic| diagnostic.diagnostic_sequence > cursor,
    )
}

/// What reading diagnostics after a cursor yields.
pub open spec fn diagnostics_read(
    tables: TablesView,
    operation_id: OperationId,
    cursor: u64,
) -> Result<OperationDiagnosticsView, OperatorErrorView> {
    if !durable_range(cursor) {
        Err(invalid_request("diagnostic cursor exceeds the supported durable range"@))
    } else {
        match tables.operation(operation_id) {
            None => Err(OperatorErrorView::UnknownOperation(uuid_text(operation_id.0))),
            Some(operation) => if tables.conversations.contains_key(ConversationId(operation_id)) {
                Err(conflict("operation diagnostics are unavailable for live conversations"@))
            } else {
                match lookup(tables.diagnostics, operation_id) {
                    None => Err(
                        OperatorErrorView::DiagnosticsUnavailable(uuid_text(operation_id.0)),
                    ),
                    Some(record) => Ok(
                        OperationDiagnosticsView {
                            operation,
                            diagnostics: diagnostics_after(record.diagnostics, cursor),
                        },
                    ),
                }
            },
        }
    }
}

/// The highest sequence number among diagnostics, or zero.
fn highest(diagnostics: &Vec<OperationDiagnostic>) -> (highest: u64)
    ensures
        highest == highest_diagnostic(diagnostics@),
{
    let mut highest: u64 = 0;
    let mut index: usize = 0;
    while index < diagnostics.len()
        invariant
            index <= diagnostics@.len(),
            highest == highest_diagnostic(diagnostics@.take(index as int)),
        decreases diagnostics@.len() - index,
    {
        if diagnostics[index].diagnostic_sequence > highest {
            highest = diagnostics[index].diagnostic_sequence;
        }
        index = index + 1;
        proof {
            assert(diagnostics@.take(index as int).drop_last() =~= diagnostics@.take(index - 1));
        }
    }
    proof {
        assert(diagnostics@.take(index as int) =~= diagnostics@);
    }
    highest
}

/// The diagnostics after a cursor.
fn later(diagnostics: &Vec<OperationDiagnostic>, cursor: u64) -> (later: Vec<OperationDiagnostic>)
    ensures
        later@ == diagnostics_after(diagnostics@, cursor),
{
    let ghost wanted = |diagnostic: OperationDiagnostic| diagnostic.diagnostic_sequence > cursor;
    let mut later: Vec<OperationDiagnostic> = Vec::new();
    let mut index: usize = 0;
    proof {
        reveal(Seq::filter);
    }
    while index < diagnostics.len()
        invariant
            index <= diagnostics@.len(),
            wanted == (|diagnostic: OperationDiagnostic| diagnostic.diagnostic_sequence > cursor),
            later@ == diagnostics@.take(index as int).filter(wanted),
        decreases diagnostics@.len() - index,
    {
        proof {
            reveal(Seq::filter);
            assert(diagnostics@.take(index + 1).drop_last() =~= diagnostics@.take(index as int));
        }
        if diagnostics[index].diagnostic_sequence > cursor {
            later.push(diagnostics[index]);
        }
        index = index + 1;
    }
    proof {
        assert(diagnostics@.take(index as int) =~= diagnostics@);
    }
    later
}

impl Tables {
    /// Records one diagnostic of a running operation.
    pub fn record_operation_diagnostic(
        &self,
        operation_id: OperationId,
        payload: OperationDiagnosticPayload,
    ) -> (recorded: Result<Decided<OperationDiagnostic>, OperatorError>)
        requires
            self.well_formed(),
        ensures
            decision(recorded) == diagnostic_recorded(self@, operation_id, payload),
    {
        match payload.validate() {
            Ok(()) => {},
            Err(error) => {
                return Err(error);
            },
        }
        let operation = match self.get_operation(operation_id) {
            Ok(operation) => operation,
            Err(error) => {
                return Err(error);
            },
        };
        if operation.state != OperationState::Running {
            return Err(
                OperatorError::Conflict(
                    "operation diagnostics can be appended only while the operation is running".to_owned(),
                ),
            );
        }
        match self.diagnostics(operation_id) {
            None => Err(OperatorError::DiagnosticsUnavailable(operation_id.to_text())),
            Some(record) => {
                let highest = highest(&record.diagnostics);
                if highest >= i64::MAX as u64 {
                    return Err(
                        OperatorError::State(
                            "diagnostic sequence exhausted durable range".to_owned(),
                        ),
                    );
                }
                let diagnostic = OperationDiagnostic {
                    operation_id,
                    diagnostic_sequence: highest + 1,
                    payload,
                };
                let mut changes = Vec::new();
                changes.push(Change::AppendDiagnostic(diagnostic));
                proof {
                    assert(views(changes@) =~= seq![ChangeView::AppendDiagnostic(diagnostic)]);
                }
                changed(diagnostic, changes)
            },
        }
    }

    /// The diagnostics of a one-shot operation after a cursor.
    pub fn get_operation_diagnostics(&self, operation_id: OperationId, cursor: u64) -> (
    found: Result<OperationDiagnostics, OperatorError>)
        requires
            self.well_formed(),
        ensures
            answer(found) == diagnostics_read(self@, operation_id, cursor),
    {
        if cursor > i64::MAX as u64 {
            return Err(
                OperatorError::InvalidRequest(
                    "diagnostic cursor exceeds the supported durable range".to_owned(),
                ),
            );
        }
        let operation = match self.get_operation(operation_id) {
            Ok(operation) => operation,
            Err(error) => {
                return Err(error);
            },
        };
        if self.conversation(ConversationId::new(operation_id)).is_some() {
            return Err(
                OperatorError::Conflict(
                    "operation diagnostics are unavailable for live conversations".to_owned(),
                ),
            );
        }
        match self.diagnostics(operation_id) {
            None => Err(OperatorError::DiagnosticsUnavailable(operation_id.to_text())),
            Some(record) => Ok(
                OperationDiagnostics {
                    operation,
                    diagnostics: later(&record.diagnostics, cursor),
                },
            ),
        }
    }
}

} // verus!
