//! Errors of the compression layer.
use vstd::prelude::*;

verus! {

/// Errors that can occur during compression operations.
#[derive(Debug, Clone, PartialEq)]
pub enum CompressionError {
    /// The codec rejected its input.
    CompressionFailed { message: String },
    /// The header did not match, or the codec rejected the compressed bytes.
    DecompressionFailed { message: String },
    /// The backend name could not be recognised.
    UnsupportedBackend { backend: String },
    /// A configuration was invalid, or a value was not eligible for compression.
    InvalidConfiguration { message: String },
    /// A backend could not be constructed.
    BackendInitializationFailed { message: String },
}

/// Result type for compression operations.
pub type CompressionResult<T> = Result<T, CompressionError>;

/// The text shown for an error: a prefix naming the kind, then its message.
pub open spec fn error_text(e: CompressionError) -> Seq<char> {
    match e {
        CompressionError::CompressionFailed { message } => "Compression failed: "@ + message@,
        CompressionError::DecompressionFailed { message } => "Decompression failed: "@ + message@,
        CompressionError::UnsupportedBackend { backend } => "Unsupported compression backend: "@
            + backend@,
        CompressionError::InvalidConfiguration { message } => "Invalid compression configuration: "@
            + message@,
        CompressionError::BackendInitializationFailed { message } => "Backend initialization failed: "@
            + message@,
    }
}

impl CompressionError {
    /// Creates a compression failed error.
    pub fn compression_failed(message: &str) -> (r: Self)
        ensures
            r matches CompressionError::CompressionFailed { message: m } && m@ == message@,
    {
        CompressionError::CompressionFailed { message: message.to_owned() }
    }

    /// Creates a decompression failed error.
    pub fn decompression_failed(message: &str) -> (r: Self)
        ensures
            r matches CompressionError::DecompressionFailed { message: m } && m@ == message@,
    {
        CompressionError::DecompressionFailed { message: message.to_owned() }
    }

    /// Creates an unsupported backend error.
    pub fn unsupported_backend(backend: &str) -> (r: Self)
        ensures
            r matches CompressionError::UnsupportedBackend { backend: b } && b@ == backend@,
    {
        CompressionError::UnsupportedBackend { backend: backend.to_owned() }
    }

    /// Creates an invalid configuration error.
    pub fn invalid_configuration(message: &str) -> (r: Self)
        ensures
            r matches CompressionError::InvalidConfiguration { message: m } && m@ == message@,
    {
        CompressionError::InvalidConfiguration { message: message.to_owned() }
    }

    /// Creates a backend initialization failed error.
    pub fn backend_initialization_failed(message: &str) -> (r: Self)
        ensures
            r matches CompressionError::BackendInitializationFailed { message: m } && m@
                == message@,
    {
        CompressionError::BackendInitializationFailed { message: message.to_owned() }
    }

    /// The human-readable text of this error.
    pub fn to_string(&self) -> (r: String)
        ensures
            r@ == error_text(*self),
    {
        let (prefix, detail) = match self {
            CompressionError::CompressionFailed { message } => ("Compression failed: ", message),
            CompressionError::DecompressionFailed { message } => ("Decompression failed: ", message),
            CompressionError::UnsupportedBackend { backend } => (
                "Unsupported compression backend: ",
                backend,
            ),
            CompressionError::InvalidConfiguration { message } => (
                "Invalid compression configuration: ",
                message,
            ),
            CompressionError::BackendInitializationFailed { message } => (
                "Backend initialization failed: ",
                message,
            ),
        };
        let mut r = prefix.to_owned();
        r.append(detail.as_str());
        r
    }
}

} // verus!
