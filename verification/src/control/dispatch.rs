//! Projects each daemon request to the one capability that is responsible for it.

use vstd::prelude::*;

use crate::contract::control::{
    ConversationSend, ConversationSendView, ConversationStart, ConversationStartView,
    ConversationStopMode, ConversationWait, DaemonRequest, DaemonRequestView, DaemonResponse,
    DaemonResponseView, OperationDiagnosticsRequest, OperationStart, OperationStartView,
    OperatorError, OperatorErrorView,
};
use crate::contract::identity::{ConversationId, OperationId};
use crate::control::initiator_binding::{self, binding_registered};
use crate::control::operation::operation_read;
use crate::control::project::{self, registering};
use crate::control::refusal::Refusal;
use crate::control::runtime::{signalled, RuntimeGate};
use crate::control::session_decision::{self, decided};
use crate::control::session_inventory::{self, session_evidenced};
use crate::state::decision::{changed, decision, unchanged, Decided};
use crate::state::operation::whole_evidence;
use crate::state::project::{every_project, registered};
use crate::state::tables::{ChangeView, Tables, TablesView};
use crate::text::views;

verus! {

/// What is done with a request: it is answered from durable state, or a capability takes it.
#[derive(Debug, PartialEq, Eq)]
pub enum Handling {
    /// The request is answered.
    Answer(DaemonResponse),
    /// Start a one-shot operation.
    StartOperation(OperationStart),
    /// Wait for a one-shot operation.
    WaitOperation { operation_id: OperationId, wait_millis: u64 },
    /// Cancel an operation.
    CancelOperation { operation_id: OperationId },
    /// Wait for diagnostics.
    ReadDiagnostics(OperationDiagnosticsRequest),
    /// Start a conversation.
    StartConversation(ConversationStart),
    /// Give a conversation a further turn.
    SendTurn(ConversationSend),
    /// Wait for events of a conversation.
    WaitConversation(ConversationWait),
    /// Stop a conversation.
    StopConversation { conversation_id: ConversationId, mode: ConversationStopMode },
}

/// The mathematical content of [`Handling`].
#[verifier::ext_equal]
pub enum HandlingView {
    Answer(DaemonResponseView),
    StartOperation(OperationStartView),
    WaitOperation { operation_id: OperationId, wait_millis: u64 },
    CancelOperation { operation_id: OperationId },
    ReadDiagnostics(OperationDiagnosticsRequest),
    StartConversation(ConversationStartView),
    SendTurn(ConversationSendView),
    WaitConversation(ConversationWait),
    StopConversation { conversation_id: ConversationId, mode: ConversationStopMode },
}

impl View for Handling {
    type V = HandlingView;

    open spec fn view(&self) -> HandlingView {
        match *self {
            Handling::Answer(value) => HandlingView::Answer(value@),
            Handling::StartOperation(value) => HandlingView::StartOperation(value@),
            Handling::WaitOperation { operation_id, wait_millis } => HandlingView::WaitOperation {
                operation_id,
                wait_millis,
            },
            Handling::CancelOperation { operation_id } => HandlingView::CancelOperation {
                operation_id,
            },
            Handling::ReadDiagnostics(value) => HandlingView::ReadDiagnostics(value),
            Handling::StartConversation(value) => HandlingView::StartConversation(value@),
            Handling::SendTurn(value) => HandlingView::SendTurn(value@),
            Handling::WaitConversation(value) => HandlingView::WaitConversation(value),
            Handling::StopConversation { conversation_id, mode } => HandlingView::StopConversation {
                conversation_id,
                mode,
            },
        }
    }
}

/// What Control remembers while the daemon runs.
pub struct OperationControl {
    pub runtime: RuntimeGate,
    pub refusal: Refusal,
}

/// An answer that changes nothing.
pub open spec fn answered(response: DaemonResponseView) -> Result<
    (HandlingView, Seq<ChangeView>),
    OperatorErrorView,
> {
    Ok((HandlingView::Answer(response), Seq::empty()))
}

/// A request that a capability takes.
pub open spec fn routed(handling: HandlingView) -> Result<
    (HandlingView, Seq<ChangeView>),
    OperatorErrorView,
> {
    Ok((handling, Seq::empty()))
}

/// Whether a result is what is done with a request. Everything is refused once a refusal was
/// recorded.
pub open spec fn handled(
    refusal: Option<OperatorErrorView>,
    tables: TablesView,
    request: DaemonRequestView,
    result: Result<(HandlingView, Seq<ChangeView>), OperatorErrorView>,
) -> bool {
    match refusal {
        Some(error) => result == Err::<(HandlingView, Seq<ChangeView>), _>(error),
        None => match request {
            DaemonRequestView::ProjectRegister(project) => result == (match registering(
                tables,
                project,
            ) {
                Ok((project, changes)) => Ok(
                    (HandlingView::Answer(DaemonResponseView::Project(project)), changes),
                ),
                Err(error) => Err(error),
            }),
            DaemonRequestView::ProjectGet { project_id } => result == (match registered(
                tables,
                project_id,
            ) {
                Ok(project) => answered(DaemonResponseView::Project(project)),
                Err(error) => Err(error),
            }),
            DaemonRequestView::ProjectList => exists|list|
                result == answered(DaemonResponseView::Projects(list)) && #[trigger] every_project(
                    tables,
                    list,
                ),
            DaemonRequestView::OperationStart(start) => result == routed(
                HandlingView::StartOperation(start),
            ),
            DaemonRequestView::OperationGet { operation_id } => result == (match operation_read(
                tables,
                operation_id,
            ) {
                Ok(operation) => answered(DaemonResponseView::Operation(operation)),
                Err(error) => Err(error),
            }),
            DaemonRequestView::OperationWait { operation_id, wait_millis } => result == routed(
                HandlingView::WaitOperation { operation_id, wait_millis },
            ),
            DaemonRequestView::OperationCancel { operation_id } => result == routed(
                HandlingView::CancelOperation { operation_id },
            ),
            DaemonRequestView::OperationDiagnostics(request) => result == routed(
                HandlingView::ReadDiagnostics(request),
            ),
            DaemonRequestView::ConversationStart(request) => result == routed(
                HandlingView::StartConversation(request),
            ),
            DaemonRequestView::ConversationSend(request) => result == routed(
                HandlingView::SendTurn(request),
            ),
            DaemonRequestView::ConversationWait(request) => result == routed(
                HandlingView::WaitConversation(request),
            ),
            DaemonRequestView::ConversationStop { conversation_id, mode } => result == routed(
                HandlingView::StopConversation { conversation_id, mode },
            ),
            DaemonRequestView::SessionInventory(request) => match registered(
                tables,
                request.project_id,
            ) {
                Err(error) => result == Err::<(HandlingView, Seq<ChangeView>), _>(error),
                Ok(_) => exists|list|
                    result == answered(DaemonResponseView::SessionInventory(list))
                        && #[trigger] whole_evidence(tables, request.project_id, None, list),
            },
            DaemonRequestView::SessionInspect(request) => match registered(
                tables,
                request.project_id,
            ) {
                Err(error) => result == Err::<(HandlingView, Seq<ChangeView>), _>(error),
                Ok(_) => if session_evidenced(
                    tables,
                    request.project_id,
                    request.target_session_id,
                ) {
                    exists|list|
                        result == answered(DaemonResponseView::SessionEvidence(list))
                            && #[trigger] whole_evidence(
                            tables,
                            request.project_id,
                            Some(request.target_session_id),
                            list,
                        )
                } else {
                    result == Err::<(HandlingView, Seq<ChangeView>), _>(
                        OperatorErrorView::UnknownSession {
                            project_id: request.project_id,
                            target_session_id: request.target_session_id,
                        },
                    )
                },
            },
            DaemonRequestView::InitiatorBindingRegister(request) => result == (
            match binding_registered(tables, request) {
                Ok((registration, changes)) => Ok(
                    (
                        HandlingView::Answer(DaemonResponseView::BindingRegistration(registration)),
                        changes,
                    ),
                ),
                Err(error) => Err(error),
            }),
            DaemonRequestView::SessionDecide(request) => exists|decision|
                result == (match decision {
                    Ok(decision) => answered(DaemonResponseView::SessionDecision(decision)),
                    Err(error) => Err(error),
                }) && #[trigger] decided(tables, request, decision),
        },
    }
}

/// An answer that changes nothing.
fn answer_with(response: DaemonResponse) -> (result: Result<Decided<Handling>, OperatorError>)
    ensures
        decision(result) == answered(response@),
{
    unchanged(Handling::Answer(response))
}

impl OperationControl {
    /// Whether the gates are in order.
    pub open spec fn well_formed(&self) -> bool {
        self.runtime.well_formed()
    }

    /// Nothing runs, and nothing is refused.
    pub fn new() -> (control: OperationControl)
        ensures
            control.well_formed(),
            control.runtime@ == Map::<OperationId, crate::control::runtime::Gate>::empty(),
            control.refusal@ is None,
    {
        OperationControl { runtime: RuntimeGate::new(), refusal: Refusal::new() }
    }

    /// Takes note that a diagnostic of a running operation could not be recorded: a failure of
    /// durable state is retained, and the operation is signalled, so that its review ends.
    pub fn diagnostic_unrecorded(&mut self, operation_id: OperationId, error: &OperatorError)
        requires
            old(self).well_formed(),
        ensures
            final(self).well_formed(),
            final(self).refusal@ == (if old(self).refusal@ is None && error@ is State {
                Some(error@)
            } else {
                old(self).refusal@
            }),
            final(self).runtime@ == signalled(old(self).runtime@, operation_id),
    {
        self.refusal.record_state(error);
        self.runtime.cancel(operation_id);
    }

    /// Answers a request from durable state, or tells which capability takes it.
    pub fn handle(&self, tables: &Tables, request: DaemonRequest) -> (result: Result<
        Decided<Handling>,
        OperatorError,
    >)
        requires
            tables.well_formed(),
        ensures
            handled(self.refusal@, tables@, request@, decision(result)),
    {
        match self.refusal.check() {
            Ok(()) => {},
            Err(error) => {
                return Err(error);
            },
        }
        match request {
            DaemonRequest::ProjectRegister(project) => match project::register(tables, project) {
                Ok(registered) => changed(
                    Handling::Answer(DaemonResponse::Project(registered.value)),
                    registered.changes,
                ),
                Err(error) => Err(error),
            },
            DaemonRequest::ProjectGet { project_id } => match project::get(tables, &project_id) {
                Ok(project) => answer_with(DaemonResponse::Project(project)),
                Err(error) => Err(error),
            },
            DaemonRequest::ProjectList => {
                let list = project::list(tables);
                proof {
                    assert(every_project(tables@, views(list@)));
                }
                answer_with(DaemonResponse::Projects(list))
            },
            DaemonRequest::OperationStart(start) => unchanged(Handling::StartOperation(start)),
            DaemonRequest::OperationGet { operation_id } => match tables.get_operation(
                operation_id,
            ) {
                Ok(operation) => answer_with(DaemonResponse::Operation(operation)),
                Err(error) => Err(error),
            },
            DaemonRequest::OperationWait { operation_id, wait_millis } => unchanged(
                Handling::WaitOperation { operation_id, wait_millis },
            ),
            DaemonRequest::OperationCancel { operation_id } => unchanged(
                Handling::CancelOperation { operation_id },
            ),
            DaemonRequest::OperationDiagnostics(request) => unchanged(
                Handling::ReadDiagnostics(request),
            ),
            DaemonRequest::ConversationStart(request) => unchanged(
                Handling::StartConversation(request),
            ),
            DaemonRequest::ConversationSend(request) => unchanged(Handling::SendTurn(request)),
            DaemonRequest::ConversationWait(request) => unchanged(
                Handling::WaitConversation(request),
            ),
            DaemonRequest::ConversationStop { conversation_id, mode } => unchanged(
                Handling::StopConversation { conversation_id, mode },
            ),
            DaemonRequest::SessionInventory(request) => {
                let ghost project_id = request@.project_id;
                match session_inventory::inventory(tables, request) {
                    Ok(list) => {
                        proof {
                            assert(whole_evidence(tables@, project_id, None, views(list@)));
                        }
                        answer_with(DaemonResponse::SessionInventory(list))
                    },
                    Err(error) => Err(error),
                }
            },
            DaemonRequest::SessionInspect(request) => {
                let ghost inspected = request@;
                match session_inventory::inspect(tables, request) {
                    Ok(list) => {
                        proof {
                            assert(whole_evidence(
                                tables@,
                                inspected.project_id,
                                Some(inspected.target_session_id),
                                views(list@),
                            ));
                        }
                        answer_with(DaemonResponse::SessionEvidence(list))
                    },
                    Err(error) => Err(error),
                }
            },
            DaemonRequest::InitiatorBindingRegister(request) => match initiator_binding::register(
                tables,
                request,
            ) {
                Ok(registered) => changed(
                    Handling::Answer(DaemonResponse::BindingRegistration(registered.value)),
                    registered.changes,
                ),
                Err(error) => Err(error),
            },
            DaemonRequest::SessionDecide(request) => {
                let ghost asked = request@;
                let decision = session_decision::decide(tables, request);
                proof {
                    assert(decided(tables@, asked, crate::state::decision::answer(decision)));
                }
                match decision {
                    Ok(decision) => answer_with(DaemonResponse::SessionDecision(decision)),
                    Err(error) => Err(error),
                }
            },
        }
    }
}

/// Once a failure was recorded every request is refused with exactly that failure, and nothing is
/// written.
pub proof fn recorded_refusal_answers_everything(
    first: OperatorErrorView,
    tables: TablesView,
    request: DaemonRequestView,
    result: Result<(HandlingView, Seq<ChangeView>), OperatorErrorView>,
)
    requires
        handled(Some(first), tables, request, result),
    ensures
        result == Err::<(HandlingView, Seq<ChangeView>), _>(first),
{
}

} // verus!
