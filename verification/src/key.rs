//! Keys: the blob store's twelve-byte identifiers and their text form of 24 hex digits.

use vstd::prelude::*;
use mongodb::bson::oid::ObjectId;
use crate::error::{Error, ErrorKind};

verus! {

/// Whether `c` is one of `0`..`9`, `a`..`f`, `A`..`F`.
pub open spec fn is_hex_digit(c: char) -> bool {
    ||| '0' as u32 <= c as u32 <= '9' as u32
    ||| 'a' as u32 <= c as u32 <= 'f' as u32
    ||| 'A' as u32 <= c as u32 <= 'F' as u32
}

/// The number that the hex digit `c` stands for.
pub open spec fn hex_value(c: char) -> int
    recommends
        is_hex_digit(c),
{
    if c as u32 <= '9' as u32 {
        c as u32 - '0' as u32
    } else if c as u32 <= 'F' as u32 {
        c as u32 - 'A' as u32 + 10
    } else {
        c as u32 - 'a' as u32 + 10
    }
}

/// The lower-case hex digit for a number below 16.
pub open spec fn hex_digit(n: int) -> char
    recommends
        0 <= n < 16,
{
    if n < 10 {
        ('0' as u32 + n) as u32 as char
    } else {
        ('a' as u32 + n - 10) as u32 as char
    }
}

/// The text form of an identifier: two lower-case hex digits for each byte, high digit first.
pub open spec fn key_text(id: Seq<u8>) -> Seq<char> {
    Seq::new(
        2 * id.len(),
        |i: int|
            if i % 2 == 0 {
                hex_digit(id[i / 2] as int / 16)
            } else {
                hex_digit(id[i / 2] as int % 16)
            },
    )
}

/// Whether `text` is written in the identifier format: exactly 24 hex digits of either case.
pub open spec fn is_key_text(text: Seq<char>) -> bool {
    &&& text.len() == 24
    &&& forall|i: int| 0 <= i < 24 ==> is_hex_digit(#[trigger] text[i])
}

/// The identifier that a text of hex digits spells: one byte for each pair of digits.
pub open spec fn key_bytes(text: Seq<char>) -> Seq<u8> {
    Seq::new(
        text.len() / 2,
        |i: int| (16 * hex_value(text[2 * i]) + hex_value(text[2 * i + 1])) as u8,
    )
}

/// A hex digit's number is below 16, and the digit of a number below 16 has that number.
pub proof fn lemma_hex_digit(n: int)
    requires
        0 <= n < 16,
    ensures
        is_hex_digit(hex_digit(n)),
        hex_value(hex_digit(n)) == n,
{
}

/// The text form of a twelve-byte identifier is in the identifier format and spells that
/// identifier: parsing what was rendered gives the identifier back.
pub proof fn lemma_key_round_trip(id: Seq<u8>)
    requires
        id.len() == 12,
    ensures
        is_key_text(key_text(id)),
        key_bytes(key_text(id)) == id,
{
    let text = key_text(id);
    assert forall|i: int| 0 <= i < 24 implies is_hex_digit(#[trigger] text[i]) by {
        let b = id[i / 2] as int;
        lemma_hex_digit(b / 16);
        lemma_hex_digit(b % 16);
    }
    assert forall|j: int| 0 <= j < 12 implies #[trigger] key_bytes(text)[j] == id[j] by {
        let b = id[j] as int;
        lemma_hex_digit(b / 16);
        lemma_hex_digit(b % 16);
        assert(text[2 * j] == hex_digit(b / 16));
        assert(text[2 * j + 1] == hex_digit(b % 16));
    }
    assert(key_bytes(text) =~= id);
}

/// Two twelve-byte identifiers with the same text form are the same identifier.
pub proof fn lemma_key_text_injective(a: Seq<u8>, b: Seq<u8>)
    requires
        a.len() == 12,
        b.len() == 12,
        key_text(a) == key_text(b),
    ensures
        a == b,
{
    lemma_key_round_trip(a);
    lemma_key_round_trip(b);
}

/// An identifier of the blob store.
#[derive(Debug, Clone, Copy)]
pub struct BlobId {
    pub bytes: [u8; 12],
}

impl View for BlobId {
    type V = Seq<u8>;

    open spec fn view(&self) -> Seq<u8> {
        self.bytes@
    }
}

/// `ObjectId::parse_str` of the bson crate, with the error rendered as text. It accepts
/// exactly the texts of 24 hex digits, upper or lower case, and reads each pair of digits
/// as one byte, high digit first.
#[verifier::external_body]
fn object_id_parse(text: &str) -> (parsed: Result<[u8; 12], String>)
    ensures
        parsed is Ok <==> is_key_text(text@),
        parsed matches Ok(bytes) ==> bytes@ == key_bytes(text@),
{
    match ObjectId::parse_str(text) {
        Ok(id) => Ok(id.bytes()),
        Err(e) => Err(e.to_string()),
    }
}

/// `ObjectId::to_hex` of the bson crate: two lower-case hex digits for each of the twelve
/// bytes, in order, high digit first.
#[verifier::external_body]
fn object_id_to_hex(bytes: [u8; 12]) -> (text: String)
    ensures
        text@ == key_text(bytes@),
{
    ObjectId::from_bytes(bytes).to_hex()
}

impl BlobId {
    /// Reads a key. A key that is not in the identifier format is refused as invalid,
    /// before anything is asked of the blob store.
    pub fn parse(key: &str) -> (parsed: Result<BlobId, Error>)
        ensures
            parsed is Ok <==> is_key_text(key@),
            parsed matches Ok(id) ==> id@ == key_bytes(key@),
            parsed matches Err(e) ==> e.kind() == ErrorKind::InvalidKey,
    {
        match object_id_parse(key) {
            Ok(bytes) => Ok(BlobId { bytes }),
            Err(message) => Err(Error::new(ErrorKind::InvalidKey, message)),
        }
    }

    /// The key under which the blob is known: the identifier's text form.
    pub fn to_key(&self) -> (key: String)
        ensures
            key@ == key_text(self@),
            is_key_text(key@),
            key_bytes(key@) == self@,
    {
        proof {
            lemma_key_round_trip(self@);
        }
        object_id_to_hex(self.bytes)
    }
}

} // verus!
