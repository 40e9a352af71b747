//! Connection endpoints over a callback-driven completion engine, with
//! submission, completion and teardown expressed as verified state machines.
pub mod status;
pub mod bridge;
pub mod endpoint;
pub mod stream;
