//! The self-describing frame that marks a compressed value.
use vstd::prelude::*;

verus! {

/// The four magic bytes that open every compressed value: "GLID".
pub const MAGIC_BYTES: [u8; 4] = [0x47, 0x4C, 0x49, 0x44];

/// Total header size: the magic bytes and one backend id byte.
pub const HEADER_SIZE: usize = 5;

/// The smallest length a compressed value can have: a header and one payload byte.
pub const MIN_COMPRESSED_SIZE: usize = 6;

/// The magic bytes as a sequence.
pub open spec fn magic_seq() -> Seq<u8> {
    seq![0x47u8, 0x4Cu8, 0x49u8, 0x44u8]
}

/// The header that frames a value compressed by the backend with id `id`.
pub open spec fn frame_header(id: u8) -> Seq<u8> {
    magic_seq().push(id)
}

/// `data` is long enough for a header and opens with the magic bytes.
pub open spec fn spec_has_header(data: Seq<u8>) -> bool {
    data.len() >= 5 && data.subrange(0, 4) == magic_seq()
}

/// The backend id carried by `data`, if it has a header.
pub open spec fn spec_backend_id_of(data: Seq<u8>) -> Option<u8> {
    if spec_has_header(data) {
        Some(data[4])
    } else {
        None
    }
}

/// `data` is framed for the backend with id `id`.
pub open spec fn is_framed_for(data: Seq<u8>, id: u8) -> bool {
    spec_backend_id_of(data) == Some(id)
}

/// The payload that follows the header.
pub open spec fn payload_of(data: Seq<u8>) -> Seq<u8> {
    data.subrange(5, data.len() as int)
}

/// Checks whether `data` opens with the magic header.
pub fn has_magic_header(data: &[u8]) -> (r: bool)
    ensures
        r == spec_has_header(data@),
{
    if data.len() < HEADER_SIZE {
        return false;
    }
    let r = data[0] == MAGIC_BYTES[0] && data[1] == MAGIC_BYTES[1] && data[2] == MAGIC_BYTES[2]
        && data[3] == MAGIC_BYTES[3];
    proof {
        if r {
            assert(data@.subrange(0, 4) =~= magic_seq());
        } else {
            assert(data@.subrange(0, 4) != magic_seq()) by {
                if data@.subrange(0, 4) == magic_seq() {
                    assert(data@.subrange(0, 4)[0] == data@[0]);
                }
            }
        }
    }
    r
}

/// The backend id byte of a framed value, or `None` when `data` has no header.
pub fn extract_backend_id(data: &[u8]) -> (r: Option<u8>)
    ensures
        r == spec_backend_id_of(data@),
{
    if has_magic_header(data) {
        Some(data[4])
    } else {
        None
    }
}

/// The five-byte header for the backend with id `backend_id`.
pub fn create_header(backend_id: u8) -> (r: [u8; HEADER_SIZE])
    ensures
        r@ == frame_header(backend_id),
{
    let r = [MAGIC_BYTES[0], MAGIC_BYTES[1], MAGIC_BYTES[2], MAGIC_BYTES[3], backend_id];
    assert(r@ =~= frame_header(backend_id));
    r
}

} // verus!
