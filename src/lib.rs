//! Transparent compression for values sent to and read from a key-value server.
//!
//! Compressed values carry a five-byte header (four magic bytes and one backend id),
//! so compressed and plain values can share one connection.
pub mod backend;
pub mod command;
pub mod config;
pub mod error;
pub mod laws;
pub mod magic_header;
pub mod manager;
pub mod pipeline;

pub use backend::{CompressionBackend, ZstdBackend};
pub use command::{get_command_compression_behavior, CommandCompressionBehavior, RequestType};
pub use config::{CompressionBackendType, CompressionConfig};
pub use error::{CompressionError, CompressionResult};
pub use manager::CompressionManager;
pub use pipeline::{process_command_args_for_compression, process_response_for_decompression, ResponseValue};
