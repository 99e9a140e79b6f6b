//! What the services learn back from their document store.

use vstd::prelude::*;
use crate::object_id::ObjectId;

verus! {

/// What a read (or a find-and-modify) of one stored document gave.
pub enum Fetched<T> {
    /// The database call failed.
    Failed,
    /// No document matched.
    Missing,
    /// A document matched, but it was empty.
    Empty,
    /// A document matched, but it did not have the expected shape.
    Malformed,
    /// A document of the expected shape.
    Found(T),
}

/// What an insertion gave.
pub enum Inserted {
    /// The database call failed.
    Failed,
    /// The inserted identifier was not a document identifier.
    NotAnObjectId,
    /// The identifier of the inserted document.
    Id(ObjectId),
}

/// The identifier to read an inserted document back by, or `None` where the
/// insertion failed or gave no document identifier.
pub fn inserted_id_text(inserted: Inserted) -> (res: Option<String>)
    ensures
        match inserted {
            Inserted::Id(id) => res matches Some(t) && t@ == crate::hex::hex_lower(id@),
            _ => res is None,
        },
{
    match inserted {
        Inserted::Id(id) => Some(id.to_hex()),
        _ => None,
    }
}

} // verus!
