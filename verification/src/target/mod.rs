//! Target Execution: the one supported invocation of the target and what its output proves.

pub mod child;
pub mod codec_laws;
pub mod command;
pub mod conversation;
pub mod conversation_codec;
pub mod conversation_input;
pub mod execution;
pub mod launch_laws;
pub mod live_laws;
pub mod live_start;
pub mod output;
pub mod output_laws;
pub mod provider_event;
pub mod refusal_laws;
pub mod review_laws;
pub mod stream;
pub mod watch;
