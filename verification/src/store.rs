//! The decisions of the record store.
//!
//! The store itself does no input or output. Each operation is a function from
//! what has just happened (an event) to what has to happen next (an action);
//! whoever owns the storage engine and the value codec carries the actions out
//! and reports back. An operation starts with its `Start` event and is over
//! with its `Finish` action.

use crate::big_endian::be_bytes;
use crate::error::Error;
use crate::key_encode::{encode_key, KeyEncoder};
use vstd::prelude::*;
use vstd::slice::slice_to_vec;

verus! {

/// What a record type tells the store about itself.
///
/// The three `spec` functions are what the contracts of the store say of a
/// record. A record type that is verified states them itself; for any other
/// they stand for whatever its methods return.
pub trait Sleigh {
    /// The name of the bucket that holds the records of this type.
    closed spec fn bucket_bytes() -> Seq<u8> {
        arbitrary()
    }

    /// The canonical bytes of this record's key.
    closed spec fn key_spec(&self) -> Seq<u8> {
        arbitrary()
    }

    /// Whether this record still waits for a key: its type has its keys
    /// assigned by the store, and its key is the zero that stands for "none".
    closed spec fn key_unset(&self) -> bool {
        arbitrary()
    }

    fn bucket() -> (name: &'static [u8])
        ensures
            name@ == Self::bucket_bytes(),
    ;

    /// The name of the field that holds the key.
    fn key_name() -> &'static str;

    fn key_value(&self) -> (key: Vec<u8>)
        ensures
            key@ == self.key_spec(),
    ;

    fn needs_key(&self) -> (unset: bool)
        ensures
            unset == self.key_unset(),
    ;

    /// Makes `id` the key of this record, which waited for one.
    fn prep(&mut self, id: u64)
        requires
            id != 0,
            old(self).key_unset(),
        ensures
            !final(self).key_unset(),
            final(self).key_spec() == be_bytes(id as nat, 8),
    ;
}

/// An entry to write: `value` under `key` in `bucket`, in place of whatever
/// is there.
#[derive(Debug, PartialEq, Eq)]
pub struct WriteRequest {
    pub bucket: Vec<u8>,
    pub key: Vec<u8>,
    pub value: Vec<u8>,
}

/// An entry to look up: the value under `key` in `bucket`.
#[derive(Debug, PartialEq, Eq)]
pub struct ReadRequest {
    pub bucket: Vec<u8>,
    pub key: Vec<u8>,
}

/// What has happened while an identifier is being drawn.
#[derive(Debug, PartialEq, Eq)]
pub enum IdEvent {
    /// Nothing yet.
    Start,
    /// The engine's counter was asked: its value, or the engine's complaint.
    Drawn(Result<u64, String>),
}

/// What drawing an identifier needs next.
#[derive(Debug, PartialEq, Eq)]
pub enum IdAction {
    /// Ask the engine's counter for a value and report it as `Drawn`.
    Draw,
    /// The identifier, or the failure.
    Finish(Result<u64, Error>),
}

/// What has happened while a record is being put.
#[derive(Debug, PartialEq, Eq)]
pub enum PutEvent {
    /// Nothing yet.
    Start,
    /// The engine's counter was asked: its value, or the engine's complaint.
    Drawn(Result<u64, String>),
    /// The record was serialized: its body, or the codec's complaint.
    Encoded(Result<Vec<u8>, String>),
    /// The entry was written, or the engine complained.
    Stored(Result<(), String>),
}

/// What putting a record needs next.
#[derive(Debug, PartialEq, Eq)]
pub enum PutAction {
    /// Ask the engine's counter for a value and report it as `Drawn`.
    Draw,
    /// Serialize the record as it now is and report the body as `Encoded`.
    Encode,
    /// Write the entry and report as `Stored`.
    Store(WriteRequest),
    /// The record is stored, or the failure.
    Finish(Result<(), Error>),
}

/// What has happened while a record is being fetched.
#[derive(Debug, PartialEq, Eq)]
pub enum GetEvent<T> {
    /// Nothing yet.
    Start,
    /// The entry was looked up: its value, if there is one, or the engine's
    /// complaint.
    Fetched(Result<Option<Vec<u8>>, String>),
    /// The value was deserialized: the record, or the codec's complaint.
    Decoded(Result<T, String>),
}

/// What fetching a record needs next.
#[derive(Debug, PartialEq, Eq)]
pub enum GetAction<T> {
    /// Look the entry up and report as `Fetched`.
    Fetch(ReadRequest),
    /// Deserialize the value and report as `Decoded`.
    Decode(Vec<u8>),
    /// The record, or the failure.
    Finish(Result<T, Error>),
}

/// What `Db::get_unique_key` answers to `event` in a store that is open or not.
pub open spec fn id_outcome(open: bool, event: IdEvent) -> IdAction {
    if !open {
        IdAction::Finish(Err(Error::StoreClosed))
    } else {
        match event {
            IdEvent::Start => IdAction::Draw,
            IdEvent::Drawn(Err(complaint)) => IdAction::Finish(
                Err(Error::IdGenerationFailed(complaint)),
            ),
            IdEvent::Drawn(Ok(value)) => if value == 0 {
                IdAction::Draw
            } else {
                IdAction::Finish(Ok(value))
            },
        }
    }
}

/// Whether `action`, with the record going from `before` to `after`, is what
/// `Db::put` answers to `event` in a store that is open or not.
pub open spec fn put_outcome<T: Sleigh>(
    open: bool,
    before: T,
    after: T,
    event: PutEvent,
    action: PutAction,
) -> bool {
    if !open {
        after == before && action == PutAction::Finish(Err(Error::StoreClosed))
    } else {
        match event {
            PutEvent::Start => after == before && action == if before.key_unset() {
                PutAction::Draw
            } else {
                PutAction::Encode
            },
            PutEvent::Drawn(Err(complaint)) => after == before && action == PutAction::Finish(
                Err(Error::IdGenerationFailed(complaint)),
            ),
            PutEvent::Drawn(Ok(value)) => if value == 0 {
                after == before && action == PutAction::Draw
            } else if before.key_unset() {
                &&& !after.key_unset()
                &&& after.key_spec() == be_bytes(value as nat, 8)
                &&& action == PutAction::Encode
            } else {
                after == before && action == PutAction::Encode
            },
            PutEvent::Encoded(Err(complaint)) => after == before && action == PutAction::Finish(
                Err(Error::SerializationFailed(complaint)),
            ),
            PutEvent::Encoded(Ok(body)) => {
                &&& after == before
                &&& action matches PutAction::Store(entry)
                &&& entry.bucket@ == T::bucket_bytes()
                &&& entry.key@ == before.key_spec()
                &&& entry.value@ == body@
            },
            PutEvent::Stored(Err(complaint)) => after == before && action == PutAction::Finish(
                Err(Error::StorageEngineFailure(complaint)),
            ),
            PutEvent::Stored(Ok(_)) => after == before && action == PutAction::Finish(Ok(())),
        }
    }
}

/// Whether `action` is what `Db::get` answers to `event`, for the record type
/// `T` and the key `key`, in a store that is open or not.
pub open spec fn get_outcome<T: Sleigh, K: KeyEncoder>(
    open: bool,
    key: K,
    event: GetEvent<T>,
    action: GetAction<T>,
) -> bool {
    if !open {
        action == GetAction::<T>::Finish(Err(Error::StoreClosed))
    } else {
        match event {
            GetEvent::Start => {
                &&& action matches GetAction::Fetch(entry)
                &&& entry.bucket@ == T::bucket_bytes()
                &&& entry.key@ == key.key_bytes()
            },
            GetEvent::Fetched(Err(complaint)) => action == GetAction::<T>::Finish(
                Err(Error::StorageEngineFailure(complaint)),
            ),
            GetEvent::Fetched(Ok(None)) => action == GetAction::<T>::Finish(Err(Error::NotFound)),
            GetEvent::Fetched(Ok(Some(value))) => action == GetAction::<T>::Decode(value),
            GetEvent::Decoded(Err(complaint)) => action == GetAction::<T>::Finish(
                Err(Error::DeserializationFailed(complaint)),
            ),
            GetEvent::Decoded(Ok(record)) => action == GetAction::<T>::Finish(Ok(record)),
        }
    }
}

/// The record store: open from the start, closed for good by `close`.
#[derive(Debug)]
pub struct Db {
    open: bool,
}

impl Db {
    /// Whether the store is open.
    pub closed spec fn opened(&self) -> bool {
        self.open
    }

    /// An open store.
    pub fn new() -> (db: Db)
        ensures
            db.opened(),
    {
        Db { open: true }
    }

    pub fn is_open(&self) -> (open: bool)
        ensures
            open == self.opened(),
    {
        self.open
    }

    /// Closes the store: from now on every operation finishes with
    /// `StoreClosed`.
    pub fn close(&mut self)
        ensures
            !final(self).opened(),
    {
        self.open = false;
    }

    /// One step of drawing an identifier: a value of the engine's counter
    /// becomes the identifier unless it is zero, which stands for "no key"
    /// and is drawn again.
    pub fn get_unique_key(&self, event: IdEvent) -> (action: IdAction)
        ensures
            action == id_outcome(self.opened(), event),
            action matches IdAction::Finish(Ok(id)) ==> id != 0 && event == IdEvent::Drawn(Ok(id)),
    {
        if !self.open {
            return IdAction::Finish(Err(Error::StoreClosed));
        }
        match event {
            IdEvent::Start => IdAction::Draw,
            IdEvent::Drawn(Err(complaint)) => IdAction::Finish(
                Err(Error::IdGenerationFailed(complaint)),
            ),
            IdEvent::Drawn(Ok(value)) => {
                if value == 0 {
                    IdAction::Draw
                } else {
                    IdAction::Finish(Ok(value))
                }
            },
        }
    }

    /// One step of putting `obj`: a record that waits for a key gets an
    /// identifier first; then the record is serialized; then its body is
    /// written under its key in the bucket of its type.
    pub fn put<T>(&self, obj: &mut T, event: PutEvent) -> (action: PutAction) where T: Sleigh
        ensures
            put_outcome(self.opened(), *old(obj), *final(obj), event, action),
    {
        if !self.open {
            return PutAction::Finish(Err(Error::StoreClosed));
        }
        match event {
            PutEvent::Start => {
                if obj.needs_key() {
                    PutAction::Draw
                } else {
                    PutAction::Encode
                }
            },
            PutEvent::Drawn(drawn) => {
                match self.get_unique_key(IdEvent::Drawn(drawn)) {
                    IdAction::Draw => PutAction::Draw,
                    IdAction::Finish(Ok(id)) => {
                        if obj.needs_key() {
                            obj.prep(id);
                        }
                        PutAction::Encode
                    },
                    IdAction::Finish(Err(e)) => PutAction::Finish(Err(e)),
                }
            },
            PutEvent::Encoded(Err(complaint)) => PutAction::Finish(
                Err(Error::SerializationFailed(complaint)),
            ),
            PutEvent::Encoded(Ok(body)) => PutAction::Store(
                WriteRequest { bucket: slice_to_vec(T::bucket()), key: obj.key_value(), value: body },
            ),
            PutEvent::Stored(Err(complaint)) => PutAction::Finish(
                Err(Error::StorageEngineFailure(complaint)),
            ),
            PutEvent::Stored(Ok(_)) => PutAction::Finish(Ok(())),
        }
    }

    /// One step of fetching the record of type `T` whose key is `key`: the
    /// entry under the key's canonical bytes in the bucket of `T` is looked
    /// up; then its value is deserialized.
    pub fn get<T, K>(&self, key: &K, event: GetEvent<T>) -> (action: GetAction<T>) where
        T: Sleigh,
        K: KeyEncoder,

        ensures
            get_outcome(self.opened(), *key, event, action),
    {
        if !self.open {
            return GetAction::Finish(Err(Error::StoreClosed));
        }
        match event {
            GetEvent::Start => GetAction::Fetch(
                ReadRequest { bucket: slice_to_vec(T::bucket()), key: encode_key(key) },
            ),
            GetEvent::Fetched(Err(complaint)) => GetAction::Finish(
                Err(Error::StorageEngineFailure(complaint)),
            ),
            GetEvent::Fetched(Ok(None)) => GetAction::Finish(Err(Error::NotFound)),
            GetEvent::Fetched(Ok(Some(value))) => GetAction::Decode(value),
            GetEvent::Decoded(Err(complaint)) => GetAction::Finish(
                Err(Error::DeserializationFailed(complaint)),
            ),
            GetEvent::Decoded(Ok(record)) => GetAction::Finish(Ok(record)),
        }
    }
}

} // verus!
