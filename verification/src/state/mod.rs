//! Durable state: its tables, and the decisions that change them.

pub mod conversation;
pub mod conversation_laws;
pub mod conversation_timeline;
pub mod conversation_turn;
pub mod decision;
pub mod diagnostic;
pub mod ending;
pub mod initiator_binding;
pub mod laws;
pub mod operation;
pub mod project;
pub mod reachable;
pub mod recovery;
pub mod session_claim;
pub mod tables;
pub mod turn_laws;
