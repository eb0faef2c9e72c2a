use vstd::prelude::*;

verus! {

/// What a JSON document holds under one key of its top-level object.
#[derive(Debug, PartialEq, Eq)]
pub enum JsonField {
    /// The document is not JSON, or its top level is not an object.
    Unreadable,
    /// The object has no such key.
    Absent,
    /// The key holds `null`.
    Null,
    /// The key holds a string.
    Text(String),
    /// The key holds a number, a boolean, an array or an object.
    Other,
}

/// The content of an optional string, as a sequence of characters.
pub open spec fn opt_text(o: Option<String>) -> Option<Seq<char>> {
    match o {
        Some(s) => Some(s@),
        None => None,
    }
}

} // verus!
