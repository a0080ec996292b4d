//! Small primitives for work that is done once or put off until later.

pub mod bytes;
pub mod counter;
pub mod defer;
pub mod drag;
pub mod once;
pub mod paths;

pub use bytes::format_bytes;
pub use counter::MonoCounter;
pub use defer::Defer;
