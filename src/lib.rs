//! Configuration model of a validator key-management service: the validator
//! endpoints it serves and the signing providers it may use, with the
//! validation step that resolves raw settings into a checked configuration.
pub mod config;
pub mod laws;
pub mod validate;
