//! Safe wrappers around a native platform SDK: packed status codes, time
//! spans, and thread handles whose names may live inside the native thread
//! block or in a buffer owned by the wrapper.
pub mod native;
pub mod sim;
pub mod status;
pub mod text;
pub mod thread;
pub mod timespan;

pub use status::Result;
pub use thread::Thread;
pub use timespan::TimeSpan;
