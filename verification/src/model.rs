//! A model of the blob store and the document store, and what the service promises
//! of every backend that behaves like it: a blob store that keeps what it is given
//! under an identifier of its own choosing, which it gives to no second blob, and a
//! document store that finds a record by its key.

use vstd::prelude::*;
use crate::error::ErrorKind;
use crate::key::{is_key_text, key_bytes, key_text, lemma_key_round_trip};
use crate::sniff::detected_mime;
use crate::store::{planned, record_of};
use crate::types::{FileInfoView, FileInputView};

verus! {

/// The first of the records whose key is `key`, as the document store finds it.
pub open spec fn first_with_key(records: Seq<FileInfoView>, key: Seq<char>) -> Option<FileInfoView>
    decreases records.len(),
{
    if records.len() == 0 {
        None
    } else if records.first().key == key {
        Some(records.first())
    } else {
        first_with_key(records.drop_first(), key)
    }
}

/// What the two stores hold.
pub struct Backend {
    /// The content of each blob, by the blob's identifier.
    pub blobs: Map<Seq<u8>, Seq<u8>>,
    /// The records, in the order in which they were inserted.
    pub records: Seq<FileInfoView>,
}

impl Backend {
    /// Stores that hold nothing.
    pub open spec fn empty() -> Backend {
        Backend { blobs: Map::empty(), records: Seq::empty() }
    }

    /// Whether `key` is the key of a stored blob: the text form of its identifier.
    pub open spec fn issued(self, key: Seq<char>) -> bool {
        exists|id: Seq<u8>| #[trigger] self.blobs.dom().contains(id) && key_text(id) == key
    }

    /// What holds of stores that only puts have written to: identifiers have twelve
    /// bytes, the key of every record is the text form of a stored blob's identifier,
    /// and no two records have the same key.
    pub open spec fn valid(self) -> bool {
        &&& forall|id: Seq<u8>| #[trigger] self.blobs.dom().contains(id) ==> id.len() == 12
        &&& forall|i: int|
            0 <= i < self.records.len() ==> {
                let key = (#[trigger] self.records[i]).key;
                &&& is_key_text(key)
                &&& key_text(key_bytes(key)) == key
                &&& self.blobs.dom().contains(key_bytes(key))
            }
        &&& forall|i: int, j: int|
            0 <= i < j < self.records.len() ==> (#[trigger] self.records[i]).key != (
            #[trigger] self.records[j]).key
    }

    /// A put of `input` at the time `now`, for which the blob store chooses the
    /// identifier `id`: the stores afterwards, and the key or the kind of failure that
    /// is answered. Content of no known type is refused and nothing is written;
    /// otherwise the bytes are kept under `id` and the record of the upload is inserted.
    pub open spec fn put(self, input: FileInputView, id: Seq<u8>, now: Seq<char>) -> (
        Backend,
        Result<Seq<char>, ErrorKind>,
    ) {
        match planned(input, detected_mime(input.bytes)) {
            None => (self, Err(ErrorKind::UnknownFileType)),
            Some(upload) => (
                Backend {
                    blobs: self.blobs.insert(id, upload.bytes),
                    records: self.records.push(record_of(upload, id, now)),
                },
                Ok(key_text(id)),
            ),
        }
    }

    /// A get of `key`: the stores afterwards, and the content or the kind of failure
    /// that is answered. A key that is not in the identifier format is refused; a key
    /// that spells the identifier of no stored blob finds nothing.
    pub open spec fn get(self, key: Seq<char>) -> (Backend, Result<Seq<u8>, ErrorKind>) {
        if !is_key_text(key) {
            (self, Err(ErrorKind::InvalidKey))
        } else if !self.blobs.dom().contains(key_bytes(key)) {
            (self, Err(ErrorKind::NotFound))
        } else {
            (self, Ok(self.blobs[key_bytes(key)]))
        }
    }

    /// An info of `key`: the stores afterwards, and the record found, if there is one.
    pub open spec fn info(self, key: Seq<char>) -> (Backend, Option<FileInfoView>) {
        (self, first_with_key(self.records, key))
    }
}

/// Among records of which none has the key, none is found.
proof fn lemma_none_with_key(records: Seq<FileInfoView>, key: Seq<char>)
    requires
        forall|i: int| 0 <= i < records.len() ==> (#[trigger] records[i]).key != key,
    ensures
        first_with_key(records, key) is None,
    decreases records.len(),
{
    if records.len() > 0 {
        assert(records[0].key != key);
        let rest = records.drop_first();
        assert forall|i: int| 0 <= i < rest.len() implies (#[trigger] rest[i]).key != key by {
            assert(rest[i] == records[i + 1]);
        }
        lemma_none_with_key(rest, key);
    }
}

/// A record added behind records of which none has its key is the one found by that key.
proof fn lemma_found_after_push(records: Seq<FileInfoView>, record: FileInfoView)
    requires
        forall|i: int| 0 <= i < records.len() ==> (#[trigger] records[i]).key != record.key,
    ensures
        first_with_key(records.push(record), record.key) == Some(record),
    decreases records.len(),
{
    let all = records.push(record);
    if records.len() == 0 {
        assert(all.first() == record);
    } else {
        assert(all.first() == records[0]);
        let rest = records.drop_first();
        assert(all.drop_first() =~= rest.push(record));
        assert forall|i: int| 0 <= i < rest.len() implies (#[trigger] rest[i]).key
            != record.key by {
            assert(rest[i] == records[i + 1]);
        }
        lemma_found_after_push(rest, record);
    }
}

/// In valid stores, the key of a blob that is not stored is the key of no record.
proof fn lemma_fresh_key(s: Backend, id: Seq<u8>)
    requires
        s.valid(),
        id.len() == 12,
        !s.blobs.dom().contains(id),
    ensures
        forall|i: int| 0 <= i < s.records.len() ==> (#[trigger] s.records[i]).key != key_text(id),
{
    lemma_key_round_trip(id);
    assert forall|i: int| 0 <= i < s.records.len() implies (#[trigger] s.records[i]).key
        != key_text(id) by {
        if s.records[i].key == key_text(id) {
            assert(s.blobs.dom().contains(key_bytes(s.records[i].key)));
        }
    }
}

/// A put into valid stores, under an identifier of twelve bytes that no stored blob
/// has, leaves the stores valid: keys stay unique and every record names a stored blob.
pub proof fn law_put_keeps_valid(s: Backend, input: FileInputView, id: Seq<u8>, now: Seq<char>)
    requires
        s.valid(),
        id.len() == 12,
        !s.blobs.dom().contains(id),
    ensures
        s.put(input, id, now).0.valid(),
{
    let after = s.put(input, id, now).0;
    if detected_mime(input.bytes) is Some {
        lemma_key_round_trip(id);
        lemma_fresh_key(s, id);
        let n = s.records.len() as int;
        assert forall|i: int| 0 <= i < after.records.len() implies {
            let key = (#[trigger] after.records[i]).key;
            &&& is_key_text(key)
            &&& key_text(key_bytes(key)) == key
            &&& after.blobs.dom().contains(key_bytes(key))
        } by {
            if i < n {
                assert(after.records[i] == s.records[i]);
            }
        }
        assert forall|i: int, j: int| 0 <= i < j < after.records.len() implies (
        #[trigger] after.records[i]).key != (#[trigger] after.records[j]).key by {
            assert(after.records[i] == s.records[i]);
            if j < n {
                assert(after.records[j] == s.records[j]);
            }
        }
    }
}

/// After a put of content of a known type, a get of the key that the put answered
/// yields exactly the bytes that were put.
pub proof fn law_get_after_put(s: Backend, input: FileInputView, id: Seq<u8>, now: Seq<char>)
    requires
        s.valid(),
        id.len() == 12,
        !s.blobs.dom().contains(id),
        detected_mime(input.bytes) is Some,
    ensures
        s.put(input, id, now).1 matches Ok(key) && s.put(input, id, now).0.get(key).1 == Ok::<
            Seq<u8>,
            ErrorKind,
        >(input.bytes),
{
    lemma_key_round_trip(id);
}

/// After a put of content of a known type, an info of the key that the put answered
/// finds a record with that key, the name and the owner that were put, and the type
/// detected from the bytes that were put.
pub proof fn law_info_after_put(s: Backend, input: FileInputView, id: Seq<u8>, now: Seq<char>)
    requires
        s.valid(),
        id.len() == 12,
        !s.blobs.dom().contains(id),
        detected_mime(input.bytes) is Some,
    ensures
        s.put(input, id, now).1 matches Ok(key) && s.put(input, id, now).0.info(key).1 matches Some(
            record,
        ) && record.key == key && record.name == input.name && record.owner == input.owner
            && Some(record.mime) == detected_mime(input.bytes) && record.create_at == now,
{
    lemma_fresh_key(s, id);
    let upload = planned(input, detected_mime(input.bytes))->Some_0;
    lemma_found_after_push(s.records, record_of(upload, id, now));
}

/// An info of a key that no put has answered finds no record.
pub proof fn law_info_of_unissued_key(s: Backend, key: Seq<char>)
    requires
        s.valid(),
        !s.issued(key),
    ensures
        s.info(key).1 is None,
{
    assert forall|i: int| 0 <= i < s.records.len() implies (#[trigger] s.records[i]).key != key by {
        let k = s.records[i].key;
        assert(s.blobs.dom().contains(key_bytes(k)));
    }
    lemma_none_with_key(s.records, key);
}

/// A get of a key in the identifier format that spells the identifier of no stored
/// blob answers that nothing was found.
pub proof fn law_get_of_unknown_key(s: Backend, key: Seq<char>)
    requires
        is_key_text(key),
        !s.blobs.dom().contains(key_bytes(key)),
    ensures
        s.get(key) == (s, Err::<Seq<u8>, ErrorKind>(ErrorKind::NotFound)),
{
}

/// A get of a key that is not in the identifier format is refused as invalid, whatever
/// the stores hold, and leaves them as they were.
pub proof fn law_get_of_invalid_key(s: Backend, key: Seq<char>)
    requires
        !is_key_text(key),
    ensures
        s.get(key) == (s, Err::<Seq<u8>, ErrorKind>(ErrorKind::InvalidKey)),
{
}

/// A put of content of no known type fails for that reason and writes nothing: the
/// stores hold no new blob and no new record.
pub proof fn law_put_of_unknown_type(s: Backend, input: FileInputView, id: Seq<u8>, now: Seq<char>)
    requires
        detected_mime(input.bytes) is None,
    ensures
        s.put(input, id, now) == (s, Err::<Seq<char>, ErrorKind>(ErrorKind::UnknownFileType)),
{
}

/// An info changes nothing in the stores, so a second info of the same key finds what
/// the first one found.
pub proof fn law_info_twice(s: Backend, key: Seq<char>)
    ensures
        s.info(key).0 == s,
        s.info(key).0.info(key).1 == s.info(key).1,
{
}

} // verus!
