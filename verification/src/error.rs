use vstd::prelude::*;

verus! {

/// Every way in which an operation of this crate can fail.
///
/// The variants that report a failure of something outside this crate (the
/// storage engine, the value codec) carry the message that came with it.
#[derive(Debug, PartialEq, Eq)]
pub enum Error {
    /// Key bytes, or the buffer for them, are shorter than the key type needs.
    TruncatedInput,
    /// Key bytes do not decode as the declared key type.
    InvalidEncoding,
    /// The storage engine's counter could not deliver a value.
    IdGenerationFailed(String),
    /// The record body could not be serialized.
    SerializationFailed(String),
    /// The stored bytes could not be turned back into a record.
    DeserializationFailed(String),
    /// The bucket holds no entry for the key.
    NotFound,
    /// The store was closed before the operation began.
    StoreClosed,
    /// The storage engine failed while reading or writing.
    StorageEngineFailure(String),
}

} // verus!
