//! The conversation and stream engine of a terminal chat client: a transcript
//! of turns, the decoding of the completion service's replies (whole, or
//! streamed as lines of deltas) into typed events, and the rules that keep
//! those events in order.

pub mod conversation;
pub mod decode;
pub mod error;
pub mod event;
pub mod frame;
pub mod role;
pub mod stream;
