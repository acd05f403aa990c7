//! The server side: decoding of requests, the handler that serves them,
//! and the replies.

pub mod handler;
pub mod request;
pub mod response;
pub mod task;
