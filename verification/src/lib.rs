//! Library front-end for an external network-scanning executable: it builds
//! the command-line invocation for the scanner and decodes the JSON that the
//! scanner prints on standard output into typed result records.
//!
//! The library itself performs no I/O: callers spawn the process and hand the
//! captured output bytes to [`decode::decode_output`].

pub mod config;
pub mod decode;
pub mod encode;
pub mod json;
pub mod outside;
pub mod records;

pub use config::Masscan;
pub use decode::{decode_output, decode_records};
pub use encode::{encode_info, encode_port, encode_service};
pub use json::{Json, JsonNum};
pub use records::{Info, Ports, Service, ScanError};
