//! A typed client library for the WriteFreely / Write.as HTTP API.
//!
//! The library holds the marshalling logic of the client: composing request
//! URLs, attaching authentication, serializing request bodies, unwrapping the
//! server's `{code, data}` response envelope, and decoding typed models. The
//! network transport itself is left to the host application, which sends the
//! [`http::RequestPlan`] values this library produces and hands the raw
//! responses back to the library's result functions.

pub mod api;
pub mod builders;
pub mod client;
pub mod decode;
pub mod encode;
pub mod errors;
pub mod handlers;
pub mod http;
pub mod json;
pub mod laws;
pub mod models;
pub mod ops;
pub mod outcomes;
pub mod requests;
pub mod responses;
pub mod text;
pub mod urls;
