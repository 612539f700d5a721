//! Typed client for a remote license-metadata service.
//!
//! The library owns the request pipeline: building the request URL for each
//! query, interpreting the HTTP status of the reply, decoding the JSON body
//! into the `License` domain model, and funnelling every failure into the
//! single `ClientError` type. The network exchange itself is left to the
//! caller, who hands each operation the raw outcome of the HTTP GET.

pub mod client;
pub mod json;
pub mod license;
