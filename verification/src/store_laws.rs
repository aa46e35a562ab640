//! What holds of the record store's requests, for an engine that keeps, for
//! each bucket and key, the value last written there.

use crate::big_endian::be_bytes;
use crate::error::Error;
use crate::key_encode::KeyEncoder;
use crate::store::{
    get_outcome, id_outcome, put_outcome, GetAction, GetEvent, IdAction, IdEvent, PutAction,
    PutEvent, ReadRequest, Sleigh, WriteRequest,
};
use vstd::prelude::*;

verus! {

/// What such an engine holds after it has carried out `entry`.
pub open spec fn written(
    contents: Map<(Seq<u8>, Seq<u8>), Seq<u8>>,
    entry: WriteRequest,
) -> Map<(Seq<u8>, Seq<u8>), Seq<u8>> {
    contents.insert((entry.bucket@, entry.key@), entry.value@)
}

/// What such an engine answers to `entry`.
pub open spec fn fetched(
    contents: Map<(Seq<u8>, Seq<u8>), Seq<u8>>,
    entry: ReadRequest,
) -> Option<Seq<u8>> {
    if contents.dom().contains((entry.bucket@, entry.key@)) {
        Some(contents[(entry.bucket@, entry.key@)])
    } else {
        None
    }
}

/// An identifier is never zero, and it is the value that the engine's counter
/// gave: identifiers are as distinct as the counter's values are.
pub proof fn lemma_identifier_is_nonzero_draw(open: bool, event: IdEvent, id: u64)
    requires
        id_outcome(open, event) == IdAction::Finish(Ok(id)),
    ensures
        id != 0,
        event == IdEvent::Drawn(Ok(id)),
{
}

/// Two identifiers that came of different values of the engine's counter are
/// different.
pub proof fn lemma_identifiers_differ_as_draws_do(
    open: bool,
    first_draw: u64,
    second_draw: u64,
    first: u64,
    second: u64,
)
    requires
        first_draw != second_draw,
        id_outcome(open, IdEvent::Drawn(Ok(first_draw))) == IdAction::Finish(Ok(first)),
        id_outcome(open, IdEvent::Drawn(Ok(second_draw))) == IdAction::Finish(Ok(second)),
    ensures
        first != second,
{
}

/// A record that waits for a key has one drawn, and the value drawn, unless
/// it is zero, becomes its key before the record is serialized.
pub proof fn lemma_put_assigns_key<T: Sleigh>(
    before: T,
    after: T,
    id: u64,
    first: PutAction,
    second: PutAction,
)
    requires
        before.key_unset(),
        id != 0,
        put_outcome(true, before, before, PutEvent::Start, first),
        put_outcome(true, before, after, PutEvent::Drawn(Ok(id)), second),
    ensures
        first == PutAction::Draw,
        second == PutAction::Encode,
        !after.key_unset(),
        after.key_spec() == be_bytes(id as nat, 8),
{
}

/// A record that has its key is serialized as it is, with no identifier
/// drawn.
pub proof fn lemma_put_keeps_key<T: Sleigh>(before: T, after: T, first: PutAction)
    requires
        !before.key_unset(),
        put_outcome(true, before, after, PutEvent::Start, first),
    ensures
        first == PutAction::Encode,
        after == before,
{
}

/// After the write that `put` asks for, the read that `get` asks for, with a
/// key of the same canonical bytes as the record's, finds the body that was
/// put, and `get` hands exactly that body on to be deserialized.
pub proof fn lemma_get_reads_what_put_wrote<T: Sleigh, K: KeyEncoder>(
    contents: Map<(Seq<u8>, Seq<u8>), Seq<u8>>,
    obj: T,
    body: Vec<u8>,
    stored: WriteRequest,
    key: K,
    asked: ReadRequest,
    found: Vec<u8>,
    next: GetAction<T>,
)
    requires
        obj.key_spec() == key.key_bytes(),
        put_outcome(true, obj, obj, PutEvent::Encoded(Ok(body)), PutAction::Store(stored)),
        get_outcome(true, key, GetEvent::<T>::Start, GetAction::<T>::Fetch(asked)),
        fetched(written(contents, stored), asked) == Some(found@),
        get_outcome(true, key, GetEvent::<T>::Fetched(Ok(Some(found))), next),
    ensures
        fetched(written(contents, stored), asked) == Some(body@),
        found@ == body@,
        next == GetAction::<T>::Decode(found),
{
}

/// Where the engine holds nothing under the key's canonical bytes in the
/// bucket of `T`, the read that `get` asks for finds nothing, and `get`
/// finishes with `NotFound`.
pub proof fn lemma_get_of_absent_key<T: Sleigh, K: KeyEncoder>(
    contents: Map<(Seq<u8>, Seq<u8>), Seq<u8>>,
    key: K,
    asked: ReadRequest,
    next: GetAction<T>,
)
    requires
        !contents.dom().contains((T::bucket_bytes(), key.key_bytes())),
        get_outcome(true, key, GetEvent::<T>::Start, GetAction::<T>::Fetch(asked)),
        get_outcome(true, key, GetEvent::<T>::Fetched(Ok(None)), next),
    ensures
        fetched(contents, asked) is None,
        next == GetAction::<T>::Finish(Err(Error::NotFound)),
{
}

/// A write under other key bytes, or into another bucket, changes nothing of
/// what a read finds: a key is written only by a `put` of that key, and
/// buckets share no keys.
pub proof fn lemma_write_elsewhere_is_unseen(
    contents: Map<(Seq<u8>, Seq<u8>), Seq<u8>>,
    stored: WriteRequest,
    asked: ReadRequest,
)
    requires
        stored.bucket@ != asked.bucket@ || stored.key@ != asked.key@,
    ensures
        fetched(written(contents, stored), asked) == fetched(contents, asked),
{
}

/// A later write under the same key in the same bucket replaces the earlier
/// one.
pub proof fn lemma_put_overwrites(
    contents: Map<(Seq<u8>, Seq<u8>), Seq<u8>>,
    earlier: WriteRequest,
    later: WriteRequest,
)
    requires
        earlier.bucket@ == later.bucket@,
        earlier.key@ == later.key@,
    ensures
        written(written(contents, earlier), later) == written(contents, later),
{
}

/// A closed store answers every event of every operation with `StoreClosed`
/// and leaves the record alone.
pub proof fn lemma_closed_store_refuses<T: Sleigh, K: KeyEncoder>(
    before: T,
    after: T,
    key: K,
    id_event: IdEvent,
    put_event: PutEvent,
    put_action: PutAction,
    get_event: GetEvent<T>,
    get_action: GetAction<T>,
)
    requires
        put_outcome(false, before, after, put_event, put_action),
        get_outcome(false, key, get_event, get_action),
    ensures
        id_outcome(false, id_event) == IdAction::Finish(Err(Error::StoreClosed)),
        put_action == PutAction::Finish(Err(Error::StoreClosed)),
        after == before,
        get_action == GetAction::<T>::Finish(Err(Error::StoreClosed)),
{
}

} // verus!
