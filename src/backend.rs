//! Compression backends: the general-purpose codec and the closed set that a manager owns.
use vstd::prelude::*;
use vstd::slice::{slice_subrange, slice_to_vec};

use crate::config::{zstd_level_ok, CompressionBackendType, ZSTD_DEFAULT_LEVEL, ZSTD_MAX_LEVEL, ZSTD_MIN_LEVEL};
use crate::error::{CompressionError, CompressionResult};
use crate::magic_header::{
    create_header, extract_backend_id, frame_header, is_framed_for, magic_seq, payload_of,
    HEADER_SIZE,
};

verus! {

#[verifier::external_type_specification]
#[verifier::external_body]
pub struct ExIoError(std::io::Error);

/// What the zstd decoder yields for `frame`: the decoded bytes, or `None` where it
/// rejects the input.
pub uninterp spec fn zstd_decoded(frame: Seq<u8>) -> Option<Seq<u8>>;

/// What the zstd encoder produces for `data` at compression level `level`.
pub uninterp spec fn zstd_encoded(data: Seq<u8>, level: i32) -> Seq<u8>;

/// Relies on `zstd::encode_all`: at a level of 1..=22 it encodes an in-memory slice into a
/// `Vec` without failing, and its output is a zstd frame that the decoder turns back into
/// `data`.
#[verifier::external_body]
fn zstd_encode(data: &[u8], level: i32) -> (r: Result<Vec<u8>, std::io::Error>)
    requires
        1 <= level <= 22,
    ensures
        r is Ok,
        r matches Ok(c) ==> c@ == zstd_encoded(data@, level),
        r matches Ok(c) ==> zstd_decoded(c@) == Some(data@),
{
    zstd::encode_all(data, level)
}

/// Relies on `zstd::decode_all`: it decodes `frame`, or fails where the decoder rejects it.
#[verifier::external_body]
fn zstd_decode(frame: &[u8]) -> (r: Result<Vec<u8>, std::io::Error>)
    ensures
        match r {
            Ok(v) => zstd_decoded(frame@) == Some(v@),
            Err(_) => zstd_decoded(frame@) is None,
        },
{
    zstd::decode_all(frame)
}

/// The level a compression runs at: the one given, else the backend default.
pub open spec fn resolve_level(level: Option<i32>, default_level: i32) -> i32 {
    match level {
        Some(l) => l,
        None => default_level,
    }
}

/// Zstd compression backend.
#[derive(Debug)]
pub struct ZstdBackend {
    default_level: i32,
}

impl ZstdBackend {
    #[verifier::type_invariant]
    spec fn level_in_range(&self) -> bool {
        zstd_level_ok(self.default_level)
    }

    /// The level used when a compression is given none.
    pub closed spec fn spec_default_level(&self) -> i32 {
        self.default_level
    }

    /// The zstd backend id.
    pub open spec fn spec_id(&self) -> u8 {
        CompressionBackendType::Zstd.spec_backend_id()
    }

    /// What compressing `data` at `level` yields: the header, then the zstd encoding.
    pub open spec fn spec_compress(&self, data: Seq<u8>, level: i32) -> Seq<u8> {
        frame_header(self.spec_id()) + zstd_encoded(data, level)
    }

    /// The error message of a failed decompression of `data`.
    pub open spec fn spec_decompress_error(&self, data: Seq<u8>) -> Seq<char> {
        if is_framed_for(data, self.spec_id()) {
            "zstd decompression failed"@
        } else {
            "Data does not have valid zstd compression header"@
        }
    }

    /// What decompressing `framed` yields; `None` where it is not framed for this
    /// backend or the decoder rejects its payload.
    pub open spec fn spec_decompress(&self, framed: Seq<u8>) -> Option<Seq<u8>> {
        if is_framed_for(framed, self.spec_id()) {
            zstd_decoded(payload_of(framed))
        } else {
            None
        }
    }

    /// Creates a backend with the default compression level, 3.
    pub fn new() -> (r: CompressionResult<Self>)
        ensures
            r matches Ok(b) && b.spec_default_level() == 3,
    {
        Ok(ZstdBackend { default_level: ZSTD_DEFAULT_LEVEL })
    }

    /// Creates a backend with a custom default level, which must lie in 1..=22.
    pub fn with_default_level(level: i32) -> (r: CompressionResult<Self>)
        ensures
            match r {
                Ok(b) => zstd_level_ok(level) && b.spec_default_level() == level,
                Err(e) => !zstd_level_ok(level) && e is BackendInitializationFailed,
            },
    {
        if level < ZSTD_MIN_LEVEL || level > ZSTD_MAX_LEVEL {
            return Err(
                CompressionError::backend_initialization_failed(
                    "zstd compression level must be between 1 and 22",
                ),
            );
        }
        Ok(ZstdBackend { default_level: level })
    }

    /// Compresses `data` at `level`, or at the default level when `level` is `None`, and
    /// prepends the header. A level outside 1..=22 is refused.
    pub fn compress(&self, data: &[u8], level: Option<i32>) -> (r: CompressionResult<Vec<u8>>)
        ensures
            zstd_level_ok(self.spec_default_level()),
            match r {
                Ok(v) => {
                    &&& zstd_level_ok(resolve_level(level, self.spec_default_level()))
                    &&& v@ == self.spec_compress(data@, resolve_level(level, self.spec_default_level()))
                    &&& is_framed_for(v@, self.spec_id())
                    &&& self.spec_decompress(v@) == Some(data@)
                },
                Err(e) => {
                    &&& !zstd_level_ok(resolve_level(level, self.spec_default_level()))
                    &&& e matches CompressionError::InvalidConfiguration { message } && message@
                        == "zstd compression level must be between 1 and 22"@
                },
            },
    {
        proof {
            use_type_invariant(self);
        }
        let compression_level = match level {
            Some(l) => l,
            None => self.default_level,
        };
        if compression_level < ZSTD_MIN_LEVEL || compression_level > ZSTD_MAX_LEVEL {
            return Err(
                CompressionError::invalid_configuration(
                    "zstd compression level must be between 1 and 22",
                ),
            );
        }
        let mut compressed = match zstd_encode(data, compression_level) {
            Ok(c) => c,
            Err(_) => {
                return Err(CompressionError::compression_failed("zstd compression failed"));
            },
        };
        let ghost encoded = compressed@;
        let header = create_header(self.backend_id());
        let mut result = slice_to_vec(&header);
        result.append(&mut compressed);
        proof {
            assert(result@.subrange(0, 5) =~= header@);
            assert(result@.subrange(0, 4) =~= magic_seq());
            assert(result@[4] == self.spec_id());
            assert(payload_of(result@) =~= encoded);
            assert(result@ =~= header@ + encoded);
        }
        Ok(result)
    }

    /// Strips the header of a value framed for this backend and decodes the payload.
    pub fn decompress(&self, data: &[u8]) -> (r: CompressionResult<Vec<u8>>)
        ensures
            match r {
                Ok(v) => self.spec_decompress(data@) == Some(v@),
                Err(e) => {
                    &&& self.spec_decompress(data@) is None
                    &&& e matches CompressionError::DecompressionFailed { message } && message@
                        == self.spec_decompress_error(data@)
                },
            },
    {
        if !self.is_compressed(data) {
            return Err(
                CompressionError::decompression_failed(
                    "Data does not have valid zstd compression header",
                ),
            );
        }
        let payload = slice_subrange(data, HEADER_SIZE, data.len());
        assert(payload@ =~= payload_of(data@));
        match zstd_decode(payload) {
            Ok(v) => Ok(v),
            Err(_) => Err(CompressionError::decompression_failed("zstd decompression failed")),
        }
    }

    /// Checks whether `data` is framed for this backend.
    pub fn is_compressed(&self, data: &[u8]) -> (r: bool)
        ensures
            r == is_framed_for(data@, self.spec_id()),
    {
        match extract_backend_id(data) {
            Some(id) => id == self.backend_id(),
            None => false,
        }
    }

    /// The backend's name.
    pub fn backend_name(&self) -> (r: &'static str)
        ensures
            r@ == CompressionBackendType::Zstd.spec_backend_name(),
    {
        CompressionBackendType::Zstd.backend_name()
    }

    /// The backend's default level.
    pub fn default_level(&self) -> (r: Option<i32>)
        ensures
            r == Some(self.spec_default_level()),
            zstd_level_ok(self.spec_default_level()),
    {
        proof {
            use_type_invariant(self);
        }
        Some(self.default_level)
    }

    /// The id byte written into the header.
    pub fn backend_id(&self) -> (r: u8)
        ensures
            r == self.spec_id(),
    {
        CompressionBackendType::Zstd.backend_id()
    }
}

impl Default for ZstdBackend {
    /// A backend at the default level.
    fn default() -> (r: Self)
        ensures
            r.spec_default_level() == 3,
    {
        ZstdBackend { default_level: ZSTD_DEFAULT_LEVEL }
    }
}

/// The backends a manager can own, one variant per codec.
#[derive(Debug)]
pub enum CompressionBackend {
    /// The general-purpose zstd codec.
    Zstd(ZstdBackend),
}

impl CompressionBackend {
    /// The id byte that this backend writes into headers.
    pub open spec fn spec_id(&self) -> u8 {
        match self {
            CompressionBackend::Zstd(b) => b.spec_id(),
        }
    }

    /// The level used when a compression is given none.
    pub open spec fn spec_default_level(&self) -> i32 {
        match self {
            CompressionBackend::Zstd(b) => b.spec_default_level(),
        }
    }

    /// The backend's name.
    pub open spec fn spec_name(&self) -> Seq<char> {
        match self {
            CompressionBackend::Zstd(_) => CompressionBackendType::Zstd.spec_backend_name(),
        }
    }

    /// What compressing `data` at `level` yields.
    pub open spec fn spec_compress(&self, data: Seq<u8>, level: i32) -> Seq<u8> {
        match self {
            CompressionBackend::Zstd(b) => b.spec_compress(data, level),
        }
    }

    /// The error message of a failed decompression of `data`.
    pub open spec fn spec_decompress_error(&self, data: Seq<u8>) -> Seq<char> {
        match self {
            CompressionBackend::Zstd(b) => b.spec_decompress_error(data),
        }
    }

    /// What decompressing `framed` yields, `None` where this backend rejects it.
    pub open spec fn spec_decompress(&self, framed: Seq<u8>) -> Option<Seq<u8>> {
        match self {
            CompressionBackend::Zstd(b) => b.spec_decompress(framed),
        }
    }

    /// `data` carries this backend's header.
    pub open spec fn spec_is_compressed(&self, data: Seq<u8>) -> bool {
        is_framed_for(data, self.spec_id())
    }

    /// A level this backend accepts.
    pub open spec fn spec_level_ok(&self, level: i32) -> bool {
        match self {
            CompressionBackend::Zstd(_) => zstd_level_ok(level),
        }
    }

    /// Compresses `data` at `level`, or at the default level, and frames the result.
    pub fn compress(&self, data: &[u8], level: Option<i32>) -> (r: CompressionResult<Vec<u8>>)
        ensures
            self.spec_level_ok(self.spec_default_level()),
            match r {
                Ok(v) => {
                    &&& self.spec_level_ok(resolve_level(level, self.spec_default_level()))
                    &&& v@ == self.spec_compress(data@, resolve_level(level, self.spec_default_level()))
                    &&& self.spec_is_compressed(v@)
                    &&& self.spec_decompress(v@) == Some(data@)
                },
                Err(e) => {
                    &&& !self.spec_level_ok(resolve_level(level, self.spec_default_level()))
                    &&& e is InvalidConfiguration
                },
            },
    {
        match self {
            CompressionBackend::Zstd(b) => b.compress(data, level),
        }
    }

    /// Decompresses a value framed for this backend.
    pub fn decompress(&self, data: &[u8]) -> (r: CompressionResult<Vec<u8>>)
        ensures
            match r {
                Ok(v) => self.spec_decompress(data@) == Some(v@),
                Err(e) => {
                    &&& self.spec_decompress(data@) is None
                    &&& e matches CompressionError::DecompressionFailed { message } && message@
                        == self.spec_decompress_error(data@)
                },
            },
    {
        match self {
            CompressionBackend::Zstd(b) => b.decompress(data),
        }
    }

    /// Checks whether `data` is framed for this backend.
    pub fn is_compressed(&self, data: &[u8]) -> (r: bool)
        ensures
            r == self.spec_is_compressed(data@),
    {
        match self {
            CompressionBackend::Zstd(b) => b.is_compressed(data),
        }
    }

    /// The backend's name.
    pub fn backend_name(&self) -> (r: &'static str)
        ensures
            r@ == self.spec_name(),
    {
        match self {
            CompressionBackend::Zstd(b) => b.backend_name(),
        }
    }

    /// The backend's default level.
    pub fn default_level(&self) -> (r: Option<i32>)
        ensures
            r == Some(self.spec_default_level()),
    {
        match self {
            CompressionBackend::Zstd(b) => b.default_level(),
        }
    }

    /// The id byte written into the header.
    pub fn backend_id(&self) -> (r: u8)
        ensures
            r == self.spec_id(),
    {
        match self {
            CompressionBackend::Zstd(b) => b.backend_id(),
        }
    }
}

} // verus!
