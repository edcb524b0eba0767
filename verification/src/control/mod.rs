//! Operation Control: what the daemon does with each request.

pub mod admission;
pub mod conversation;
pub mod diagnostic;
pub mod dialogue_laws;
pub mod dispatch;
pub mod ingress;
pub mod initiator_binding;
pub mod laws;
pub mod live;
pub mod operation;
pub mod outcome_laws;
pub mod project;
pub mod recorder;
pub mod refusal;
pub mod request_laws;
pub mod runtime;
pub mod session_decision;
pub mod session_inventory;
pub mod session_writer;
pub mod start_laws;
pub mod worker;
