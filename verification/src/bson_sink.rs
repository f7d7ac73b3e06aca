//! Trusted boundary to the `bson` crate. A `bson::Document` is an ordered
//! map (backed by an index-preserving map), modelled here as a sequence of
//! key/value entries; each wrapper states, over that model, what the one
//! `bson` call in its body does. Every key these wrappers are given is
//! required to be fresh, so an insertion is always an append.

use vstd::prelude::*;

use crate::doc_model::{has_key, DocValue};

verus! {

#[verifier::external_type_specification]
#[verifier::external_body]
pub struct ExDocument(bson::Document);

/// The entries of a `bson::Document`, in insertion order.
pub uninterp spec fn doc_model(d: bson::Document) -> Seq<(Seq<char>, DocValue)>;

/// Models of a sequence of documents, entry for entry.
pub open spec fn doc_models(s: Seq<bson::Document>) -> Seq<DocValue> {
    s.map_values(|d: bson::Document| DocValue::SubDoc(doc_model(d)))
}

/// Relies on `bson::Document::new`: a fresh document has no entries.
#[verifier::external_body]
pub fn new_doc() -> (d: bson::Document)
    ensures
        doc_model(d) == Seq::<(Seq<char>, DocValue)>::empty(),
{
    bson::Document::new()
}

/// Relies on `bson::Document::insert` with a `&str` value, which is stored
/// as a BSON string; an absent key is appended after the existing entries,
/// whose order is kept.
#[verifier::external_body]
pub fn put_text(d: &mut bson::Document, key: &str, val: &str)
    requires
        !has_key(doc_model(*old(d)), key@),
    ensures
        doc_model(*final (d)) == doc_model(*old(d)).push(
            (key@, DocValue::Text(val@)),
        ),
{
    d.insert(key, val);
}

/// Relies on `bson::Document::insert` with an `i64` value, which is stored
/// as a 64-bit BSON integer; an absent key is appended after the existing
/// entries, whose order is kept.
#[verifier::external_body]
pub fn put_num(d: &mut bson::Document, key: &str, val: i64)
    requires
        !has_key(doc_model(*old(d)), key@),
    ensures
        doc_model(*final (d)) == doc_model(*old(d)).push(
            (key@, DocValue::Num(val as int)),
        ),
{
    d.insert(key, val);
}

/// Relies on `bson::Document::insert` with a `Document` value, which is
/// stored as a nested document; an absent key is appended after the
/// existing entries, whose order is kept.
#[verifier::external_body]
pub fn put_doc(d: &mut bson::Document, key: &str, val: bson::Document)
    requires
        !has_key(doc_model(*old(d)), key@),
    ensures
        doc_model(*final (d)) == doc_model(*old(d)).push(
            (key@, DocValue::SubDoc(doc_model(val))),
        ),
{
    d.insert(key, val);
}

/// Relies on `bson::Document::insert` with a `Vec<Document>` value, which
/// is stored as a BSON array of the documents in order; an absent key is
/// appended after the existing entries, whose order is kept.
#[verifier::external_body]
pub fn put_doc_array(d: &mut bson::Document, key: &str, val: Vec<bson::Document>)
    requires
        !has_key(doc_model(*old(d)), key@),
    ensures
        doc_model(*final (d)) == doc_model(*old(d)).push(
            (key@, DocValue::Arr(doc_models(val@))),
        ),
{
    d.insert(key, val);
}

} // verus!
