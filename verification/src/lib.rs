//! Client-side core of a streaming chat API and a web-search API: SSE frame
//! decoding, event decoding with fail-soft error substitution, text-delta
//! projection, reconnect backoff policy, and request/query building.

pub mod anthropic;
pub mod backoff;
pub mod brave;
pub mod decode;
pub mod events;
pub mod http;
pub mod json;
pub mod models;
pub mod project;
pub mod request;
pub mod sse;
pub mod text;
pub mod value_parsers;
