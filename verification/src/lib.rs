//! A typed client for a Confluence-style content REST API. A chain of
//! builder states, one per URL segment or query stage, accumulates a request
//! held as plain values; every transition either extends the request or
//! forwards the first construction error unchanged, and the terminal execute
//! step sends it and hands back headers, status, and the body decoded as
//! JSON when it parses.

pub mod client;
pub mod content;
pub mod errors;
pub mod model;
pub mod request;
pub mod transport;
pub mod util;
