//! A deterministic target for acceptance tests: what it accepts, and what it does with each prompt.

pub mod event;
pub mod event_laws;
pub mod invocation;
pub mod live;
pub mod play_laws;
pub mod prompt;
pub mod prompt_laws;
pub mod resume;
pub mod review;
pub mod script;
