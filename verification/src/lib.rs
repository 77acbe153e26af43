//! Client-side logic of `rhino-cli`, a JSON-RPC 2.0 client for Rhino plugins.
//!
//! The crate holds the protocol model (requests, responses, ids), the error
//! model with its exit codes, the JSON value model the commands read, and the
//! decisions of every command: which parameters to send, how to read a result,
//! what to print, and how to interpret the output of the operating system's
//! process tools. Sockets, files, clocks and process spawning stay with the
//! caller, which hands the outcomes back to the functions here.
pub mod text;
pub mod json;
pub mod json_text;
pub mod json_write;
pub mod error;
pub mod protocol;
pub mod report;
pub mod client;
pub mod commands;
