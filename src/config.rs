//! Backend identities and the compression configuration.
use vstd::prelude::*;

use crate::error::{CompressionError, CompressionResult};

verus! {

/// The largest accepted minimum compression size: 1 MiB.
pub const MAX_MIN_COMPRESSION_SIZE: usize = 1048576;

/// The default minimum size, in bytes, for a value to be compressed.
pub const DEFAULT_MIN_COMPRESSION_SIZE: usize = 64;

/// The lowest compression level of the general-purpose codec.
pub const ZSTD_MIN_LEVEL: i32 = 1;

/// The highest compression level of the general-purpose codec.
pub const ZSTD_MAX_LEVEL: i32 = 22;

/// The default compression level of the general-purpose codec.
pub const ZSTD_DEFAULT_LEVEL: i32 = 3;

/// `level` is a valid level of the general-purpose codec.
pub open spec fn zstd_level_ok(level: i32) -> bool {
    1 <= level <= 22
}

/// Supported compression backend types.
#[derive(Debug, Clone, Copy, PartialEq, Eq, Hash, Structural)]
pub enum CompressionBackendType {
    /// Zstandard compression.
    Zstd,
    /// LZ4 compression (declared; it has no codec yet).
    Lz4,
}

impl CompressionBackendType {
    /// The id byte written into the header.
    pub open spec fn spec_backend_id(self) -> u8 {
        match self {
            CompressionBackendType::Zstd => 1,
            CompressionBackendType::Lz4 => 2,
        }
    }

    /// The backend's name.
    pub open spec fn spec_backend_name(self) -> Seq<char> {
        match self {
            CompressionBackendType::Zstd => "zstd"@,
            CompressionBackendType::Lz4 => "lz4"@,
        }
    }

    /// The backend's default level; `None` for a backend without levels.
    pub open spec fn spec_default_level(self) -> Option<i32> {
        match self {
            CompressionBackendType::Zstd => Some(3),
            CompressionBackendType::Lz4 => None,
        }
    }

    /// Gets the backend id used in magic headers.
    pub fn backend_id(&self) -> (r: u8)
        ensures
            r == self.spec_backend_id(),
    {
        match self {
            CompressionBackendType::Zstd => 0x01,
            CompressionBackendType::Lz4 => 0x02,
        }
    }

    /// Gets the backend name.
    pub fn backend_name(&self) -> (r: &'static str)
        ensures
            r@ == self.spec_backend_name(),
    {
        match self {
            CompressionBackendType::Zstd => "zstd",
            CompressionBackendType::Lz4 => "lz4",
        }
    }

    /// Gets the default compression level of this backend.
    pub fn default_level(&self) -> (r: Option<i32>)
        ensures
            r == self.spec_default_level(),
    {
        match self {
            CompressionBackendType::Zstd => Some(ZSTD_DEFAULT_LEVEL),
            CompressionBackendType::Lz4 => None,
        }
    }

    /// The backend name as an owned string.
    pub fn to_string(&self) -> (r: String)
        ensures
            r@ == self.spec_backend_name(),
    {
        self.backend_name().to_owned()
    }

    /// Picks the backend named by an already lowercased name; `given` is the name as it was written,
    /// which the error reports.
    pub fn from_folded_name(folded: &str, given: &str) -> (r: CompressionResult<Self>)
        ensures
            match r {
                Ok(t) => spec_backend_from_name(folded@) == Some(t),
                Err(e) => {
                    &&& spec_backend_from_name(folded@) is None
                    &&& e matches CompressionError::UnsupportedBackend { backend } && backend@
                        == given@
                },
            },
    {
        if str_equals(folded, "zstd") || str_equals(folded, "zstandard") {
            Ok(CompressionBackendType::Zstd)
        } else if str_equals(folded, "lz4") {
            Ok(CompressionBackendType::Lz4)
        } else {
            Err(CompressionError::unsupported_backend(given))
        }
    }
}

/// The backend that a lowercased name selects: "zstd" or "zstandard", and "lz4".
pub open spec fn spec_backend_from_name(name: Seq<char>) -> Option<CompressionBackendType> {
    if name == "zstd"@ || name == "zstandard"@ {
        Some(CompressionBackendType::Zstd)
    } else if name == "lz4"@ {
        Some(CompressionBackendType::Lz4)
    } else {
        None
    }
}

/// The lowercase form of a string, as the standard library computes it.
pub uninterp spec fn lower_of(s: Seq<char>) -> Seq<char>;

/// Relies on `str::to_lowercase`: the lowercase form depends on the characters alone.
#[verifier::external_body]
fn lowercase(s: &str) -> (r: String)
    ensures
        r@ == lower_of(s@),
{
    s.to_lowercase()
}

fn str_equals(a: &str, b: &str) -> (r: bool)
    ensures
        r == (a@ == b@),
{
    let x = a.to_owned();
    let y = b.to_owned();
    x.eq(&y)
}

impl std::str::FromStr for CompressionBackendType {
    type Err = CompressionError;

    /// Parses a backend name, ignoring case.
    fn from_str(s: &str) -> Result<Self, Self::Err> {
        let folded = lowercase(s);
        CompressionBackendType::from_folded_name(folded.as_str(), s)
    }
}

/// Configuration for compression operations.
#[derive(Debug, Clone, PartialEq)]
pub struct CompressionConfig {
    /// Whether compression is enabled.
    pub enabled: bool,
    /// The compression backend to use.
    pub backend: CompressionBackendType,
    /// Compression level; `None` uses the backend default.
    pub compression_level: Option<i32>,
    /// Minimum size in bytes for a value to be considered for compression.
    pub min_compression_size: usize,
    /// Maximum size in bytes for a value to be compressed; `None` means no limit.
    pub max_compression_size: Option<usize>,
}

impl CompressionConfig {
    /// A value of `size` bytes is eligible for compression under this configuration.
    pub open spec fn spec_should_compress(self, size: int) -> bool {
        &&& self.enabled
        &&& size >= self.min_compression_size
        &&& match self.max_compression_size {
            Some(max) => size <= max,
            None => true,
        }
    }

    /// The configured level, if any, is accepted by the configured backend.
    pub open spec fn level_ok(self) -> bool {
        match self.compression_level {
            None => true,
            Some(level) => match self.backend {
                CompressionBackendType::Zstd => zstd_level_ok(level),
                CompressionBackendType::Lz4 => false,
            },
        }
    }

    /// The configuration passes validation.
    pub open spec fn spec_valid(self) -> bool {
        &&& 0 < self.min_compression_size <= 1048576
        &&& match self.max_compression_size {
            Some(max) => max > self.min_compression_size,
            None => true,
        }
        &&& self.level_ok()
    }

    /// The message of the first check that the configuration fails, `None` where it
    /// passes them all.
    pub open spec fn spec_validation_error(self) -> Option<Seq<char>> {
        if self.min_compression_size == 0 {
            Some("min_compression_size must be greater than 0"@)
        } else if self.min_compression_size > 1048576 {
            Some("min_compression_size must not exceed 1MB"@)
        } else if self.max_compression_size matches Some(max) && max <= self.min_compression_size {
            Some("max_compression_size must be greater than min_compression_size"@)
        } else {
            match self.compression_level {
                None => None,
                Some(level) => match self.backend {
                    CompressionBackendType::Zstd => if zstd_level_ok(level) {
                        None
                    } else {
                        Some("zstd compression level must be between 1 and 22"@)
                    },
                    CompressionBackendType::Lz4 => Some(
                        "lz4 backend does not support compression levels"@,
                    ),
                },
            }
        }
    }

    /// Creates an enabled configuration with the backend's default level, a 64 byte
    /// minimum and no maximum.
    pub fn new(backend: CompressionBackendType) -> (r: Self)
        ensures
            r == (CompressionConfig {
                enabled: true,
                backend,
                compression_level: backend.spec_default_level(),
                min_compression_size: 64,
                max_compression_size: None,
            }),
    {
        CompressionConfig {
            enabled: true,
            backend,
            compression_level: backend.default_level(),
            min_compression_size: DEFAULT_MIN_COMPRESSION_SIZE,
            max_compression_size: None,
        }
    }

    /// Creates a disabled configuration.
    pub fn disabled() -> (r: Self)
        ensures
            r == (CompressionConfig {
                enabled: false,
                backend: CompressionBackendType::Zstd,
                compression_level: None,
                min_compression_size: 64,
                max_compression_size: None,
            }),
    {
        CompressionConfig {
            enabled: false,
            backend: CompressionBackendType::Zstd,
            compression_level: None,
            min_compression_size: DEFAULT_MIN_COMPRESSION_SIZE,
            max_compression_size: None,
        }
    }

    /// Sets the compression level.
    pub fn with_compression_level(self, level: Option<i32>) -> (r: Self)
        ensures
            r == (CompressionConfig { compression_level: level, ..self }),
    {
        let mut c = self;
        c.compression_level = level;
        c
    }

    /// Sets the minimum compression size.
    pub fn with_min_compression_size(self, size: usize) -> (r: Self)
        ensures
            r == (CompressionConfig { min_compression_size: size, ..self }),
    {
        let mut c = self;
        c.min_compression_size = size;
        c
    }

    /// Sets the maximum compression size.
    pub fn with_max_compression_size(self, size: Option<usize>) -> (r: Self)
        ensures
            r == (CompressionConfig { max_compression_size: size, ..self }),
    {
        let mut c = self;
        c.max_compression_size = size;
        c
    }

    /// Validates the configuration; every failure is an invalid configuration error.
    pub fn validate(&self) -> (r: CompressionResult<()>)
        ensures
            r is Ok <==> self.spec_valid(),
            self.spec_valid() <==> self.spec_validation_error() is None,
            match r {
                Ok(_) => self.spec_validation_error() is None,
                Err(e) => {
                    &&& e matches CompressionError::InvalidConfiguration { message }
                        && self.spec_validation_error() == Some(message@)
                },
            },
    {
        if self.min_compression_size == 0 {
            return Err(
                CompressionError::invalid_configuration("min_compression_size must be greater than 0"),
            );
        }
        if self.min_compression_size > MAX_MIN_COMPRESSION_SIZE {
            return Err(
                CompressionError::invalid_configuration("min_compression_size must not exceed 1MB"),
            );
        }
        if let Some(max_size) = self.max_compression_size {
            if max_size <= self.min_compression_size {
                return Err(
                    CompressionError::invalid_configuration(
                        "max_compression_size must be greater than min_compression_size",
                    ),
                );
            }
        }
        if let Some(level) = self.compression_level {
            match self.backend {
                CompressionBackendType::Zstd => {
                    if level < ZSTD_MIN_LEVEL || level > ZSTD_MAX_LEVEL {
                        return Err(
                            CompressionError::invalid_configuration(
                                "zstd compression level must be between 1 and 22",
                            ),
                        );
                    }
                },
                CompressionBackendType::Lz4 => {
                    return Err(
                        CompressionError::invalid_configuration(
                            "lz4 backend does not support compression levels",
                        ),
                    );
                },
            }
        }
        Ok(())
    }

    /// Checks whether a value of `data_size` bytes should be compressed.
    pub fn should_compress(&self, data_size: usize) -> (r: bool)
        ensures
            r == self.spec_should_compress(data_size as int),
    {
        if !self.enabled {
            return false;
        }
        if data_size < self.min_compression_size {
            return false;
        }
        if let Some(max_size) = self.max_compression_size {
            if data_size > max_size {
                return false;
            }
        }
        true
    }
}

impl Default for CompressionConfig {
    /// The default configuration is the disabled one.
    fn default() -> (r: Self)
        ensures
            r == (CompressionConfig {
                enabled: false,
                backend: CompressionBackendType::Zstd,
                compression_level: None,
                min_compression_size: 64,
                max_compression_size: None,
            }),
    {
        CompressionConfig::disabled()
    }
}

} // verus!
