//! Building blocks for pushing a firearms-transfer record to a remote API.
//!
//! - [`key`] derives the idempotency key that identifies a shipment;
//! - [`payload`] holds the record and assembles it from a shipment and its items;
//! - [`wire`] says what the record looks like as JSON, over the values of [`json`];
//! - [`auth`] builds the `Authorization` header of HTTP Basic authentication;
//! - [`submit`] decides, step by step, what a single submission does;
//! - [`hex`] and [`digest`] serve the key.
//!
//! Nothing here touches the network, the clock or the standard output: the
//! caller sends, waits and prints.

pub mod auth;
pub mod digest;
pub mod hex;
pub mod json;
pub mod key;
pub mod payload;
pub mod submit;
pub mod wire;
