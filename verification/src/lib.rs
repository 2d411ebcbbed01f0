//! Typed client logic for a bot-listing web service.
//!
//! The library holds everything about the service's protocol that can be
//! checked without a network: the JSON wire format (a verified parser and
//! serializer), the typed records of each endpoint with their wire field
//! names, the request descriptors (URL, headers, body) that each operation
//! sends, and the rule that turns an HTTP status and response body into
//! either a typed success payload or a uniform error.  The actual HTTP
//! exchange lives outside the library and hands plain values in and out.

pub mod json;
pub mod errors;
pub mod submodels;
pub mod models;
pub mod del;
