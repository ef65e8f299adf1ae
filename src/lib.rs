//! Client-side HTTP requests: the description of a request and the URL it
//! targets, a closed set of failures, and the decisions of a bounded retry
//! sequence. Sending is left to the caller's transport.

pub mod error;
pub mod request;
pub mod retry;
