//! Properties that hold across the operations of the compression layer.
use vstd::prelude::*;

use crate::backend::CompressionBackend;
use crate::config::CompressionConfig;
use crate::magic_header::{frame_header, magic_seq};
use crate::manager::CompressionManager;

verus! {

/// Whatever a backend compresses, at whatever level, comes out framed for that backend.
pub proof fn lemma_compressed_is_framed(b: &CompressionBackend, data: Seq<u8>, level: i32)
    ensures
        b.spec_is_compressed(b.spec_compress(data, level)),
{
    let out = b.spec_compress(data, level);
    assert(out.subrange(0, 4) =~= magic_seq());
    assert(out[4] == b.spec_id());
}

/// Idempotence: the strict compression of an eligible value that is already framed for
/// the manager's backend returns that value unchanged.
pub proof fn lemma_compress_idempotent(m: &CompressionManager, data: Seq<u8>)
    requires
        m.spec_should_compress(data),
        m.spec_is_compressed(data),
    ensures
        m.spec_compress_value(data) == Some(data),
{
}

/// Compressing twice frames once: when the result of a successful strict compression is
/// compressed again, and is itself eligible, it comes back unchanged.
pub proof fn lemma_compress_twice(m: &CompressionManager, data: Seq<u8>)
    requires
        m.spec_compress_value(data) is Some,
        m.spec_should_compress(m.spec_compress_value(data)->Some_0),
    ensures
        m.spec_compress_value(m.spec_compress_value(data)->Some_0) == m.spec_compress_value(data),
{
    lemma_compressed_is_framed(&m.spec_backend(), data, m.spec_level());
}

/// The fail-open compression is idempotent: applying it to its own result changes nothing.
pub proof fn lemma_try_compress_idempotent(m: &CompressionManager, data: Seq<u8>)
    ensures
        m.spec_try_compress(m.spec_try_compress(data)) == m.spec_try_compress(data),
{
    lemma_compressed_is_framed(&m.spec_backend(), data, m.spec_level());
}

/// Backend discrimination: a value framed with backend id `id` is not recognised as
/// compressed by a backend whose id differs.
pub proof fn lemma_backend_discrimination(b: &CompressionBackend, id: u8, payload: Seq<u8>)
    requires
        id != b.spec_id(),
    ensures
        !b.spec_is_compressed(frame_header(id) + payload),
{
    assert((frame_header(id) + payload)[4] == id);
}

/// A disabled configuration never selects a value for compression, whatever its size.
pub proof fn lemma_disabled_never_compresses(c: CompressionConfig, size: int)
    requires
        !c.enabled,
    ensures
        !c.spec_should_compress(size),
{
}

/// A disabled manager's fail-open operations are the identity.
pub proof fn lemma_disabled_identity(m: &CompressionManager, data: Seq<u8>)
    requires
        !m.spec_config().enabled,
    ensures
        m.spec_try_compress(data) == data,
        m.spec_try_decompress(data) == data,
{
}

} // verus!
