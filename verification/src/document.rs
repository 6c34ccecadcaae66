//! The body codec. A packet body is a BSON document; this layer does not
//! look inside one. Nothing in this file is proved: each function hands its
//! argument to the `bson` library and states what that library documents.

use vstd::prelude::*;

verus! {

#[verifier::external_type_specification]
#[verifier::external_body]
pub struct ExBson(bson::Bson);

#[verifier::external_type_specification]
#[verifier::external_body]
pub struct ExDocument(bson::Document);

#[verifier::external_type_specification]
#[verifier::external_body]
pub struct ExEncodeError(bson::ser::Error);

#[verifier::external_type_specification]
#[verifier::external_body]
pub struct ExDecodeError(bson::de::Error);

/// What `bson::to_vec` makes of a BSON value: its bytes, or nothing where the
/// value is no document or holds what the format cannot.
pub uninterp spec fn encoded_document(value: bson::Bson) -> Option<Seq<u8>>;

/// Whether `bson::from_slice` reads `bytes` as a document.
pub uninterp spec fn is_document(bytes: Seq<u8>) -> bool;

/// `bson::to_vec` on a BSON value. The result is the one the value
/// determines.
#[verifier::external_body]
pub(crate) fn bson_to_vec(value: &bson::Bson) -> (r: Result<Vec<u8>, bson::ser::Error>)
    ensures
        match r {
            Ok(bytes) => encoded_document(*value) == Some(bytes@),
            Err(_) => encoded_document(*value) is None,
        },
{
    bson::to_vec(value)
}

/// `bson::from_slice` into a `Document`. Whether it succeeds is for the
/// bytes alone to decide; nothing is claimed of the document it returns.
#[verifier::external_body]
pub(crate) fn bson_from_slice(bytes: &[u8]) -> (r: Result<bson::Document, bson::de::Error>)
    ensures
        r is Ok <==> is_document(bytes@),
{
    bson::from_slice(bytes)
}

} // verus!
