//! The two places where compression meets a command: its outgoing arguments and its reply.
use vstd::prelude::*;
use vstd::utf8::{decode_utf8, encode_utf8, valid_utf8};

use crate::command::{get_command_compression_behavior, CommandCompressionBehavior, RequestType};
use crate::error::CompressionResult;
use crate::manager::CompressionManager;

verus! {

/// The position of the value argument of a command that sets a single value.
pub const SINGLE_VALUE_INDEX: usize = 1;

/// A reply from the server, as far as decompression needs to tell replies apart.
///
/// Every reply that is neither nil nor a string is carried in `Other` and passed through.
#[derive(Debug, Clone, PartialEq)]
pub enum ResponseValue<V> {
    /// The nil reply.
    Nil,
    /// A binary-safe string.
    BulkString(Vec<u8>),
    /// A simple text string.
    SimpleString(String),
    /// Any other reply.
    Other(V),
}

/// The outgoing arguments of `request_type` are rewritten: a manager is present and enabled,
/// the command sets a single value, and that value argument is there.
pub open spec fn compresses_args(
    args_len: int,
    request_type: RequestType,
    manager: Option<&CompressionManager>,
) -> bool {
    &&& manager matches Some(m) && m.spec_config().enabled
    &&& request_type is SetValue
    &&& args_len > 1
}

/// The reply to `request_type` is decompressed: a manager is present and enabled, the
/// command reads a single value, and the reply is not nil.
pub open spec fn decompresses_reply<V>(
    value: ResponseValue<V>,
    request_type: RequestType,
    manager: Option<&CompressionManager>,
) -> bool {
    &&& manager matches Some(m) && m.spec_config().enabled
    &&& request_type is Get
    &&& !(value is Nil)
}

/// `out` is what the decompression of reply `value` by `m` gives: a binary string is
/// decompressed; a text string is decompressed and stays text where the result is valid
/// UTF-8, else becomes a binary string; any other reply is unchanged.
pub open spec fn decompressed_reply<V>(
    m: &CompressionManager,
    value: ResponseValue<V>,
    out: ResponseValue<V>,
) -> bool {
    match value {
        ResponseValue::BulkString(b) => out matches ResponseValue::BulkString(o) && o@
            == m.spec_try_decompress(b@),
        ResponseValue::SimpleString(s) => {
            let d = m.spec_try_decompress(encode_utf8(s@));
            if valid_utf8(d) {
                out matches ResponseValue::SimpleString(t) && t@ == decode_utf8(d)
            } else {
                out matches ResponseValue::BulkString(o) && o@ == d
            }
        },
        _ => out == value,
    }
}

/// Relies on `String::from_utf8`: it accepts exactly the valid UTF-8 byte sequences, and
/// hands the bytes back where they are not.
#[verifier::external_body]
fn string_from_utf8(bytes: Vec<u8>) -> (r: Result<String, Vec<u8>>)
    ensures
        match r {
            Ok(s) => valid_utf8(bytes@) && s@ == decode_utf8(bytes@),
            Err(b) => !valid_utf8(bytes@) && b@ == bytes@,
        },
{
    match String::from_utf8(bytes) {
        Ok(s) => Ok(s),
        Err(e) => Err(e.into_bytes()),
    }
}

/// Compresses the arguments of a command that sets values, in place.
///
/// Processing never fails: a missing manager, a disabled one, a command without a value to
/// compress and a missing value argument all leave the arguments as they are.
pub fn process_command_args_for_compression(
    args: &mut Vec<Vec<u8>>,
    request_type: RequestType,
    compression_manager: Option<&CompressionManager>,
) -> (r: CompressionResult<()>)
    ensures
        r is Ok,
        if compresses_args(old(args)@.len() as int, request_type, compression_manager) {
            &&& final(args)@ == old(args)@.update(1, final(args)@[1])
            &&& final(args)@[1]@ == compression_manager.unwrap().spec_try_compress(old(args)@[1]@)
            &&& !compression_manager.unwrap().spec_is_compressed(old(args)@[1]@)
                ==> compression_manager.unwrap().spec_try_decompress(final(args)@[1]@)
                == old(args)@[1]@
        } else {
            final(args)@ == old(args)@
        },
{
    let manager = match compression_manager {
        Some(m) => m,
        None => {
            return Ok(());
        },
    };
    if !manager.is_enabled() {
        return Ok(());
    }
    let behavior = get_command_compression_behavior(request_type);
    if behavior != CommandCompressionBehavior::CompressValues {
        return Ok(());
    }
    match request_type {
        RequestType::SetValue => compress_single_value_command(args, manager, SINGLE_VALUE_INDEX),
        _ => Ok(()),
    }
}

/// Replaces the argument at `value_index`, if there is one, by its fail-open compression.
fn compress_single_value_command(
    args: &mut Vec<Vec<u8>>,
    manager: &CompressionManager,
    value_index: usize,
) -> (r: CompressionResult<()>)
    ensures
        r is Ok,
        if value_index < old(args)@.len() {
            &&& final(args)@ == old(args)@.update(value_index as int, final(args)@[value_index as int])
            &&& final(args)@[value_index as int]@ == manager.spec_try_compress(
                old(args)@[value_index as int]@,
            )
            &&& !manager.spec_is_compressed(old(args)@[value_index as int]@)
                ==> manager.spec_try_decompress(final(args)@[value_index as int]@)
                == old(args)@[value_index as int]@
        } else {
            final(args)@ == old(args)@
        },
{
    if args.len() <= value_index {
        return Ok(());
    }
    let compressed_value = manager.try_compress_value(args[value_index].as_slice());
    args[value_index] = compressed_value;
    Ok(())
}

/// Decompresses the reply to a command that reads values.
///
/// Processing never fails: a missing manager, a disabled one, a command without a value to
/// decompress and a nil reply all leave the reply as it is.
pub fn process_response_for_decompression<V>(
    value: ResponseValue<V>,
    request_type: RequestType,
    compression_manager: Option<&CompressionManager>,
) -> (r: CompressionResult<ResponseValue<V>>)
    ensures
        r matches Ok(out) && if decompresses_reply(value, request_type, compression_manager) {
            decompressed_reply(compression_manager.unwrap(), value, out)
        } else {
            out == value
        },
{
    let manager = match compression_manager {
        Some(m) => m,
        None => {
            return Ok(value);
        },
    };
    if !manager.is_enabled() {
        return Ok(value);
    }
    let behavior = get_command_compression_behavior(request_type);
    if behavior != CommandCompressionBehavior::DecompressValues {
        return Ok(value);
    }
    if let ResponseValue::Nil = value {
        return Ok(value);
    }
    match request_type {
        RequestType::Get => decompress_single_value_response(value, manager),
        _ => Ok(value),
    }
}

/// Decompresses a reply that holds a single value.
fn decompress_single_value_response<V>(
    value: ResponseValue<V>,
    manager: &CompressionManager,
) -> (r: CompressionResult<ResponseValue<V>>)
    ensures
        r matches Ok(out) && decompressed_reply(manager, value, out),
{
    match value {
        ResponseValue::BulkString(bytes) => {
            let decompressed = manager.try_decompress_value(bytes.as_slice());
            Ok(ResponseValue::BulkString(decompressed))
        },
        ResponseValue::SimpleString(s) => {
            let decompressed = manager.try_decompress_value(s.as_str().as_bytes());
            match string_from_utf8(decompressed) {
                Ok(text) => Ok(ResponseValue::SimpleString(text)),
                Err(bytes) => Ok(ResponseValue::BulkString(bytes)),
            }
        },
        other => Ok(other),
    }
}

} // verus!
