//! The REST side: rate limits, requests and the retry discipline.

pub mod client;
pub mod message;
pub mod ratelimiter;
