//! The domain contracts of Operation Control and of Target Execution.

pub mod control;
pub mod identity;
pub mod target;
