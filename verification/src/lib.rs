//! The verified core of a local operator for reviews by a local model process.

pub mod answer_laws;
pub mod contract;
pub mod control;
pub mod fixture;
pub mod gateway;
pub mod identifier;
pub mod json;
pub mod keyed;
pub mod order;
pub mod plain_laws;
pub mod state;
pub mod target;
pub mod text;
