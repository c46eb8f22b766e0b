//! Command identifiers and the classifier that decides what happens to their values.
use vstd::prelude::*;

verus! {

/// Identifiers of the commands that a client sends.
#[derive(Debug, Clone, Copy, PartialEq, Eq, Hash)]
pub enum RequestType {
    InvalidRequest,
    CustomCommand,
    // Strings
    /// Reads the value of a single key.
    Get,
    /// Sets the value of a single key.
    SetValue,
    MGet,
    MSet,
    SetEx,
    SetNX,
    MSetNX,
    Append,
    SetRange,
    GetEx,
    GetDel,
    GetRange,
    GetSet,
    // Hashes
    HSet,
    HGet,
    HMSet,
    HMGet,
    // Lists
    LPush,
    LPop,
    LRange,
    // Sets
    SAdd,
    SMembers,
    SPop,
    // Sorted sets
    ZAdd,
    ZRange,
    // Streams
    XAdd,
    XRead,
    // JSON documents
    JsonSet,
    JsonGet,
    // HyperLogLog
    PfAdd,
    // Geospatial indexes
    GeoAdd,
    // Connection
    Ping,
    Echo,
    Auth,
    // Generic keyspace commands
    Del,
    Exists,
    Expire,
    TTL,
    Type,
    // Server administration
    Info,
    ConfigGet,
    ConfigSet,
    // Transactions
    Multi,
    Exec,
    Discard,
}

/// What the compression layer does with the values of a command.
#[derive(Debug, Clone, Copy, PartialEq, Eq, Hash, Structural)]
pub enum CommandCompressionBehavior {
    /// The command sets a value, which is compressed before it is sent.
    CompressValues,
    /// The command reads a value, which is decompressed after it is received.
    DecompressValues,
    /// The command carries no value to compress or decompress.
    NoCompression,
}

/// The behavior of each command: setting a single value compresses it, reading a single
/// value decompresses it, and every other command is left alone.
pub open spec fn spec_behavior(request_type: RequestType) -> CommandCompressionBehavior {
    match request_type {
        RequestType::SetValue => CommandCompressionBehavior::CompressValues,
        RequestType::Get => CommandCompressionBehavior::DecompressValues,
        _ => CommandCompressionBehavior::NoCompression,
    }
}

impl CommandCompressionBehavior {
    /// The behavior's description.
    pub open spec fn spec_description(self) -> Seq<char> {
        match self {
            CommandCompressionBehavior::CompressValues => "Compress values before sending to server"@,
            CommandCompressionBehavior::DecompressValues => "Decompress values after receiving from server"@,
            CommandCompressionBehavior::NoCompression => "No compression processing required"@,
        }
    }

    /// The variant's name.
    pub open spec fn spec_name(self) -> Seq<char> {
        match self {
            CommandCompressionBehavior::CompressValues => "CompressValues"@,
            CommandCompressionBehavior::DecompressValues => "DecompressValues"@,
            CommandCompressionBehavior::NoCompression => "NoCompression"@,
        }
    }

    /// A human-readable description of the behavior.
    pub fn description(&self) -> (r: &'static str)
        ensures
            r@ == self.spec_description(),
    {
        match self {
            CommandCompressionBehavior::CompressValues => "Compress values before sending to server",
            CommandCompressionBehavior::DecompressValues => "Decompress values after receiving from server",
            CommandCompressionBehavior::NoCompression => "No compression processing required",
        }
    }

    /// The variant's name as a string.
    pub fn to_string(&self) -> (r: String)
        ensures
            r@ == self.spec_name(),
    {
        let name = match self {
            CommandCompressionBehavior::CompressValues => "CompressValues",
            CommandCompressionBehavior::DecompressValues => "DecompressValues",
            CommandCompressionBehavior::NoCompression => "NoCompression",
        };
        name.to_owned()
    }
}

/// Determines the compression behavior of a command.
pub fn get_command_compression_behavior(request_type: RequestType) -> (r: CommandCompressionBehavior)
    ensures
        r == spec_behavior(request_type),
        r is CompressValues <==> request_type is SetValue,
        r is DecompressValues <==> request_type is Get,
        r is NoCompression <==> !(request_type is SetValue || request_type is Get),
{
    match request_type {
        RequestType::SetValue => CommandCompressionBehavior::CompressValues,
        RequestType::Get => CommandCompressionBehavior::DecompressValues,
        _ => CommandCompressionBehavior::NoCompression,
    }
}

} // verus!
