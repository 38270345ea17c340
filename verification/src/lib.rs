//! Prefill/decode routing.

pub mod admission;
pub mod attempt;
pub mod config;
pub mod context;
pub mod dispatch;
pub mod headers;
pub mod json;
pub mod laws;
pub mod logprobs;
pub mod replies;
pub mod request;
pub mod router;
pub mod sse;
pub mod status;
pub mod stream;
pub mod text;
pub mod worker;
