//! Identifiers of stored documents: twelve bytes, written as 24 base16 digits.

use vstd::prelude::*;
use crate::hex::{all_hex, hex_bytes, hex_lower, hex_lowercase, lemma_hex_bytes_relower, lemma_hex_roundtrip};

verus! {

/// Whether `s` is the text of a document identifier: 24 base16 digits.
pub open spec fn is_object_id_text(s: Seq<char>) -> bool {
    s.len() == 24 && all_hex(s)
}

/// The identifier that a text stands for, if it is one.
pub open spec fn parsed_object_id(s: Seq<char>) -> Option<Seq<u8>> {
    if is_object_id_text(s) {
        Some(hex_bytes(s))
    } else {
        None
    }
}

/// `bson::oid::ObjectId::parse_str`: the source decodes the text with `hex::decode`
/// (both cases of digits) and accepts exactly twelve bytes, so it succeeds on
/// 24 base16 digits and gives the bytes they stand for, and fails on any other text.
#[verifier::external_body]
fn bson_parse_object_id(s: &str) -> (res: Option<[u8; 12]>)
    ensures
        res is Some <==> is_object_id_text(s@),
        res matches Some(b) ==> b@ == hex_bytes(s@),
{
    bson::oid::ObjectId::parse_str(s).ok().map(|id| id.bytes())
}

/// `bson::oid::ObjectId::to_hex`: the source writes the twelve bytes with
/// `hex::encode`, lower-case digits, high nibble first.
#[verifier::external_body]
fn bson_object_id_hex(bytes: [u8; 12]) -> (res: String)
    ensures
        res@ == hex_lower(bytes@),
{
    bson::oid::ObjectId::from_bytes(bytes).to_hex()
}

/// `bson::oid::ObjectId::new`: a fresh identifier made of the time, a random
/// process value and a counter; nothing is stated of its bytes.
#[verifier::external_body]
fn bson_new_object_id() -> (res: [u8; 12]) {
    bson::oid::ObjectId::new().bytes()
}

/// A document identifier.
#[derive(Clone, Copy, Debug)]
pub struct ObjectId {
    pub bytes: [u8; 12],
}

impl View for ObjectId {
    type V = Seq<u8>;

    open spec fn view(&self) -> Seq<u8> {
        self.bytes@
    }
}

impl ObjectId {
    /// Reads an identifier from its text; `None` unless the text is 24 base16 digits.
    pub fn parse(s: &str) -> (res: Option<ObjectId>)
        ensures
            res is Some <==> is_object_id_text(s@),
            res matches Some(id) ==> id@ == hex_bytes(s@),
    {
        match bson_parse_object_id(s) {
            Some(b) => Some(ObjectId { bytes: b }),
            None => None,
        }
    }

    /// The text of the identifier: 24 lower-case base16 digits.
    pub fn to_hex(&self) -> (res: String)
        ensures
            res@ == hex_lower(self@),
            res@.len() == 24,
    {
        bson_object_id_hex(self.bytes)
    }

    /// A fresh identifier.
    pub fn generate() -> (res: ObjectId) {
        ObjectId { bytes: bson_new_object_id() }
    }
}

/// The text of an identifier reads back as that identifier.
pub proof fn lemma_object_id_text_roundtrip(bytes: Seq<u8>)
    requires
        bytes.len() == 12,
    ensures
        is_object_id_text(hex_lower(bytes)),
        parsed_object_id(hex_lower(bytes)) == Some(bytes),
{
    lemma_hex_roundtrip(bytes);
}

/// Reading an identifier and writing it back gives its text in lower case.
pub proof fn lemma_object_id_relower(s: Seq<char>)
    requires
        is_object_id_text(s),
    ensures
        parsed_object_id(s) matches Some(b) && hex_lower(b) == hex_lowercase(s),
{
    lemma_hex_bytes_relower(s);
}

} // verus!
