//! The client side: requests, their responses, and the channel that
//! serves them one at a time.

pub mod channel;
pub mod message;
pub mod retry;
