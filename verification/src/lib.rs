//! The decisions behind the C interface of the chat client.
//!
//! C hands over pointers, byte strings and numbers; files, threads and the network lie behind the
//! client. In between stands what this library decides: which arguments are usable, which error
//! reaches the caller, what is asked of the client, and how it logs. Pointers arrive as options, C
//! strings as their bytes, and every answer is a plain value.

pub mod address;
pub mod archive;
pub mod call_laws;
pub mod config;
pub mod error;
pub mod laws;
pub mod log_backend;
pub mod logging;
pub mod messaging;
pub mod startup;
pub mod text;
