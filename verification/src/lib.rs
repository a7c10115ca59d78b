//! Host-side state of the `wasi:http/types` interface: header fields, request
//! options, requests and responses kept in wasmtime resource tables.

pub mod fields;
pub mod host;
pub mod laws;
pub mod message;
pub mod options;
pub mod requests;
pub mod responses;
pub mod table;
