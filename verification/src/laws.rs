//! What the operations are for, as laws on their calls: each law takes the
//! arguments and the result of a call, and says in plain terms how they relate.

pub mod admission;
pub mod attempt;
pub mod config;
pub mod context;
pub mod dispatch;
pub mod headers;
pub mod logprobs;
pub mod replies;
pub mod request;
pub mod sse;
pub mod stream;
pub mod text;
pub mod worker;
