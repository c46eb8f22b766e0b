//! The manager that pairs one backend with one validated configuration.
use vstd::prelude::*;
use vstd::slice::slice_to_vec;

use crate::backend::{resolve_level, CompressionBackend};
use crate::config::CompressionConfig;
use crate::error::{CompressionError, CompressionResult};

verus! {

/// Coordinates compression and decompression with one backend and one configuration.
///
/// The configuration was validated and matches the backend when the manager was built,
/// and neither changes afterwards.
#[derive(Debug)]
pub struct CompressionManager {
    backend: CompressionBackend,
    config: CompressionConfig,
}

impl CompressionManager {
    /// The backend this manager owns.
    pub closed spec fn spec_backend(&self) -> CompressionBackend {
        self.backend
    }

    /// The configuration this manager was built with.
    pub closed spec fn spec_config(&self) -> CompressionConfig {
        self.config
    }

    /// The configuration is valid and names the backend the manager owns.
    pub open spec fn wf(&self) -> bool {
        &&& self.spec_config().spec_valid()
        &&& self.spec_backend().spec_id() == self.spec_config().backend.spec_backend_id()
    }

    #[verifier::type_invariant]
    spec fn built_valid(&self) -> bool {
        self.wf()
    }

    /// `data` is eligible for compression.
    pub open spec fn spec_should_compress(&self, data: Seq<u8>) -> bool {
        self.spec_config().spec_should_compress(data.len() as int)
    }

    /// `data` is already framed for this manager's backend.
    pub open spec fn spec_is_compressed(&self, data: Seq<u8>) -> bool {
        self.spec_backend().spec_is_compressed(data)
    }

    /// The level this manager compresses at: the configured one, else the backend default.
    pub open spec fn spec_level(&self) -> i32 {
        resolve_level(self.spec_config().compression_level, self.spec_backend().spec_default_level())
    }

    /// What the strict compression of `data` yields, `None` where it is refused: ineligible
    /// data is refused, data already framed for the backend comes back unchanged, and
    /// anything else is compressed by the backend at the manager's level.
    pub open spec fn spec_compress_value(&self, data: Seq<u8>) -> Option<Seq<u8>> {
        if !self.spec_should_compress(data) {
            None
        } else if self.spec_is_compressed(data) {
            Some(data)
        } else {
            Some(self.spec_backend().spec_compress(data, self.spec_level()))
        }
    }

    /// The message with which the strict compression of ineligible `data` is refused.
    pub open spec fn spec_compress_refusal(&self) -> Seq<char> {
        if !self.spec_config().enabled {
            "Compression is disabled"@
        } else {
            "Value does not meet compression criteria"@
        }
    }

    /// What the strict decompression of `data` yields, `None` where the codec rejects a
    /// framed value: a disabled manager and unframed data leave it unchanged.
    pub open spec fn spec_decompress_value(&self, data: Seq<u8>) -> Option<Seq<u8>> {
        if !self.spec_config().enabled || !self.spec_is_compressed(data) {
            Some(data)
        } else {
            self.spec_backend().spec_decompress(data)
        }
    }

    /// What the fail-open compression of `data` yields: the strict result, else `data`.
    pub open spec fn spec_try_compress(&self, data: Seq<u8>) -> Seq<u8> {
        match self.spec_compress_value(data) {
            Some(v) => v,
            None => data,
        }
    }

    /// What the fail-open decompression of `data` yields: the strict result, else `data`.
    pub open spec fn spec_try_decompress(&self, data: Seq<u8>) -> Seq<u8> {
        match self.spec_decompress_value(data) {
            Some(v) => v,
            None => data,
        }
    }

    /// Creates a manager; the configuration must be valid and name the given backend.
    pub fn new(backend: CompressionBackend, config: CompressionConfig) -> (r: CompressionResult<Self>)
        ensures
            match r {
                Ok(m) => {
                    &&& config.spec_valid()
                    &&& backend.spec_id() == config.backend.spec_backend_id()
                    &&& m.spec_backend() == backend
                    &&& m.spec_config() == config
                },
                Err(e) => {
                    &&& !(config.spec_valid() && backend.spec_id() == config.backend.spec_backend_id())
                    &&& e matches CompressionError::InvalidConfiguration { message } && message@
                        == match config.spec_validation_error() {
                        Some(msg) => msg,
                        None => "Backend mismatch: expected "@ + config.backend.spec_backend_name()
                            + ", got "@ + backend.spec_name(),
                    }
                },
            },
    {
        match config.validate() {
            Ok(()) => {},
            Err(e) => {
                return Err(e);
            },
        }
        if backend.backend_id() != config.backend.backend_id() {
            let mut message = "Backend mismatch: expected ".to_owned();
            message.append(config.backend.backend_name());
            message.append(", got ");
            message.append(backend.backend_name());
            return Err(CompressionError::invalid_configuration(message.as_str()));
        }
        Ok(CompressionManager { backend, config })
    }

    /// Checks whether `data` is eligible for compression.
    pub fn should_compress(&self, data: &[u8]) -> (r: bool)
        ensures
            r == self.spec_should_compress(data@),
    {
        self.config.should_compress(data.len())
    }

    /// Compresses a value with the configured backend, refusing ineligible values.
    pub fn compress_value(&self, value: &[u8]) -> (r: CompressionResult<Vec<u8>>)
        ensures
            match r {
                Ok(v) => self.spec_compress_value(value@) == Some(v@),
                Err(e) => {
                    &&& self.spec_compress_value(value@) is None
                    &&& e matches CompressionError::InvalidConfiguration { message } && message@
                        == self.spec_compress_refusal()
                },
            },
            r matches Ok(v) ==> (!self.spec_is_compressed(value@) ==> self.spec_decompress_value(
                v@,
            ) == Some(value@)),
    {
        proof {
            use_type_invariant(self);
        }
        if !self.config.enabled {
            return Err(CompressionError::invalid_configuration("Compression is disabled"));
        }
        if !self.should_compress(value) {
            return Err(
                CompressionError::invalid_configuration("Value does not meet compression criteria"),
            );
        }
        if self.backend.is_compressed(value) {
            return Ok(slice_to_vec(value));
        }
        let r = self.backend.compress(value, self.config.compression_level);
        assert(self.backend.spec_level_ok(self.spec_level()));
        r
    }

    /// Decompresses a value framed for the backend; other values come back unchanged.
    pub fn decompress_value(&self, value: &[u8]) -> (r: CompressionResult<Vec<u8>>)
        ensures
            match r {
                Ok(v) => self.spec_decompress_value(value@) == Some(v@),
                Err(e) => {
                    &&& self.spec_decompress_value(value@) is None
                    &&& e matches CompressionError::DecompressionFailed { message } && message@
                        == self.spec_backend().spec_decompress_error(value@)
                },
            },
    {
        if !self.config.enabled {
            return Ok(slice_to_vec(value));
        }
        if !self.backend.is_compressed(value) {
            return Ok(slice_to_vec(value));
        }
        self.backend.decompress(value)
    }

    /// The configuration.
    pub fn config(&self) -> (r: &CompressionConfig)
        ensures
            *r == self.spec_config(),
    {
        &self.config
    }

    /// The backend.
    pub fn backend(&self) -> (r: &CompressionBackend)
        ensures
            *r == self.spec_backend(),
    {
        &self.backend
    }

    /// The backend's name.
    pub fn backend_name(&self) -> (r: &'static str)
        ensures
            r@ == self.spec_config().backend.spec_backend_name(),
    {
        proof {
            use_type_invariant(self);
        }
        self.backend.backend_name()
    }

    /// Checks whether compression is enabled.
    pub fn is_enabled(&self) -> (r: bool)
        ensures
            r == self.spec_config().enabled,
    {
        self.config.enabled
    }

    /// Compresses a value where possible and otherwise returns it unchanged; it never fails.
    pub fn try_compress_value(&self, value: &[u8]) -> (r: Vec<u8>)
        ensures
            r@ == self.spec_try_compress(value@),
            !self.spec_is_compressed(value@) ==> self.spec_try_decompress(r@) == value@,
    {
        if !self.config.enabled || !self.should_compress(value) {
            return slice_to_vec(value);
        }
        match self.compress_value(value) {
            Ok(compressed) => compressed,
            Err(_) => slice_to_vec(value),
        }
    }

    /// Decompresses a value where possible and otherwise returns it unchanged; it never fails.
    pub fn try_decompress_value(&self, value: &[u8]) -> (r: Vec<u8>)
        ensures
            r@ == self.spec_try_decompress(value@),
    {
        match self.decompress_value(value) {
            Ok(decompressed) => decompressed,
            Err(_) => slice_to_vec(value),
        }
    }
}

} // verus!
