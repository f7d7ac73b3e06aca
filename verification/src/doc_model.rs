//! Mathematical model of the documents the loader writes: an ordered list
//! of key/value entries, where a value is text, an integer, a nested
//! document, or an array of values.

use vstd::prelude::*;

verus! {

/// Model of one document value.
pub ghost enum DocValue {
    Text(Seq<char>),
    Num(int),
    SubDoc(Seq<(Seq<char>, DocValue)>),
    Arr(Seq<DocValue>),
}

/// Whether `entries` binds `key`.
pub open spec fn has_key(entries: Seq<(Seq<char>, DocValue)>, key: Seq<char>) -> bool {
    exists|i: int| 0 <= i < entries.len() && entries[i].0 == key
}

/// First value bound to `key` in `entries`, if any.
pub open spec fn doc_field(entries: Seq<(Seq<char>, DocValue)>, key: Seq<char>) -> Option<
    DocValue,
>
    decreases entries.len(),
{
    if entries.len() == 0 {
        None
    } else if entries[0].0 == key {
        Some(entries[0].1)
    } else {
        doc_field(entries.drop_first(), key)
    }
}

} // verus!
