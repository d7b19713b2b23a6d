//! BSON documents and object identifiers as the storage layer sees them.
//!
//! The values themselves belong to the `bson` crate. This module says what
//! the storage layer relies on: a document is a map from keys to values, a
//! value is a text, an identifier, a nested document or something else, and
//! an identifier is twelve bytes written as twenty-four hexadecimal digits.
//! Nothing here is proved of `bson`: each contract below restates what the
//! crate's source does.

use bson::oid::ObjectId;
use bson::{Bson, Document};
use vstd::prelude::*;

verus! {

/// What a BSON value is to the storage layer.
pub enum Element {
    /// A UTF-8 string.
    Text(Seq<char>),
    /// An object identifier, by its bytes.
    Id(Seq<u8>),
    /// An embedded document, by its fields.
    Nested(Map<Seq<char>, Element>),
    /// Any other kind of value.
    Other,
}

/// The fields of a document: its values by key.
pub type Fields = Map<Seq<char>, Element>;

/// Whether `c` is one of `0`-`9`, `a`-`f` or `A`-`F`.
pub open spec fn is_hex_digit(c: char) -> bool {
    ('0' <= c && c <= '9') || ('a' <= c && c <= 'f') || ('A' <= c && c <= 'F')
}

/// The number that a hexadecimal digit stands for.
pub open spec fn hex_digit_value(c: char) -> int {
    if '0' <= c && c <= '9' {
        c as int - '0' as int
    } else if 'a' <= c && c <= 'f' {
        c as int - 'a' as int + 10
    } else {
        c as int - 'A' as int + 10
    }
}

/// The lower-case hexadecimal digit for a number below sixteen.
pub open spec fn hex_digit(value: int) -> char {
    if value < 10 {
        ('0' as int + value) as char
    } else {
        ('a' as int + value - 10) as char
    }
}

/// Whether `text` is well formed as an object identifier: exactly
/// twenty-four hexadecimal digits, in either case.
pub open spec fn is_object_id_text(text: Seq<char>) -> bool {
    &&& text.len() == 24
    &&& forall|i: int| 0 <= i < text.len() ==> is_hex_digit(#[trigger] text[i])
}

/// The bytes that a string of hexadecimal digits stands for, two digits to
/// the byte, the high digit first.
pub open spec fn hex_bytes(text: Seq<char>) -> Seq<u8> {
    Seq::new(
        text.len() / 2,
        |i: int| (16 * hex_digit_value(text[2 * i]) + hex_digit_value(text[2 * i + 1])) as u8,
    )
}

/// The lower-case hexadecimal digits of `bytes`, two digits to the byte, the
/// high digit first.
pub open spec fn hex_text(bytes: Seq<u8>) -> Seq<char> {
    Seq::new(
        2 * bytes.len(),
        |i: int|
            hex_digit(
                if i % 2 == 0 {
                    bytes[i / 2] as int / 16
                } else {
                    bytes[i / 2] as int % 16
                },
            ),
    )
}

/// Bytes written in hexadecimal digits read back as the same bytes, and the
/// digits of twelve bytes are a well-formed object identifier.
pub proof fn lemma_hex_text_reads_back(bytes: Seq<u8>)
    ensures
        hex_bytes(hex_text(bytes)) == bytes,
        bytes.len() == 12 ==> is_object_id_text(hex_text(bytes)),
{
    let text = hex_text(bytes);
    assert forall|i: int| 0 <= i < text.len() implies is_hex_digit(#[trigger] text[i]) by {
        let byte = bytes[i / 2] as int;
        assert(0 <= byte / 16 < 16 && 0 <= byte % 16 < 16);
    }
    assert forall|i: int| 0 <= i < bytes.len() implies hex_bytes(text)[i] == bytes[i] by {
        let byte = bytes[i] as int;
        assert(text[2 * i] == hex_digit(byte / 16));
        assert(text[2 * i + 1] == hex_digit(byte % 16));
        assert(hex_digit_value(hex_digit(byte / 16)) == byte / 16);
        assert(hex_digit_value(hex_digit(byte % 16)) == byte % 16);
    }
    assert(hex_bytes(text) =~= bytes);
}

/// `bson::Bson`, a BSON value, known only through [`bson_value`].
#[verifier::external_type_specification]
#[verifier::external_body]
pub struct ExBson(bson::Bson);

/// `bson::Document`, a BSON document, known only through
/// [`document_fields`].
#[verifier::external_type_specification]
#[verifier::external_body]
pub struct ExOrderedDocument(bson::ordered::OrderedDocument);

/// `bson::oid::ObjectId`, an object identifier, known only through
/// [`object_id_bytes`].
#[verifier::external_type_specification]
#[verifier::external_body]
pub struct ExObjectId(bson::oid::ObjectId);

/// `bson::oid::Error`, why an identifier could not be made. Nothing is read
/// from it.
#[verifier::external_type_specification]
#[verifier::external_body]
pub struct ExObjectIdError(bson::oid::Error);

/// The value that a `Bson` holds.
pub uninterp spec fn bson_value(value: Bson) -> Element;

/// The fields that a `Document` holds, whatever their order.
pub uninterp spec fn document_fields(document: Document) -> Map<Seq<char>, Element>;

/// The bytes of an `ObjectId`, as `ObjectId::bytes` returns them.
pub uninterp spec fn object_id_bytes(id: ObjectId) -> Seq<u8>;

/// `ObjectId::with_string` decodes the text with `hex::decode` and accepts
/// exactly twelve bytes: it succeeds on twenty-four hexadecimal digits and on
/// nothing else, and the identifier then holds the bytes they stand for.
pub assume_specification[ bson::oid::ObjectId::with_string ](s: &str) -> (parsed: Result<
    ObjectId,
    bson::oid::Error,
>)
    ensures
        parsed is Ok <==> is_object_id_text(s@),
        parsed matches Ok(id) ==> object_id_bytes(id) == hex_bytes(s@),
;

/// `ObjectId::to_hex` encodes the twelve bytes with `hex::encode`: two
/// lower-case digits to the byte.
pub assume_specification[ bson::oid::ObjectId::to_hex ](id: &ObjectId) -> (hex: String)
    ensures
        hex@ == hex_text(object_id_bytes(*id)),
;

/// `Bson::String` holds the text it was made from.
#[verifier::external_body]
pub(crate) fn bson_string(text: String) -> (value: Bson)
    ensures
        bson_value(value) == Element::Text(text@),
{
    Bson::String(text)
}

/// `Bson::ObjectId` holds the identifier it was made from.
#[verifier::external_body]
pub(crate) fn bson_object_id(id: ObjectId) -> (value: Bson)
    ensures
        bson_value(value) == Element::Id(object_id_bytes(id)),
{
    Bson::ObjectId(id)
}

/// `Bson::Document` holds the document it was made from.
#[verifier::external_body]
pub(crate) fn bson_document(document: Document) -> (value: Bson)
    ensures
        bson_value(value) == Element::Nested(document_fields(document)),
{
    Bson::Document(document)
}

/// `Bson::as_str` returns the text of a string value and nothing for any
/// other kind of value.
pub assume_specification<'a>[ bson::Bson::as_str ](value: &'a Bson) -> (text: Option<&'a str>)
    ensures
        text is Some <==> bson_value(*value) is Text,
        text matches Some(t) ==> bson_value(*value) == Element::Text(t@),
;

/// `Bson::as_object_id` returns the identifier of an identifier value and
/// nothing for any other kind of value.
pub assume_specification<'a>[ bson::Bson::as_object_id ](value: &'a Bson) -> (id: Option<
    &'a ObjectId,
>)
    ensures
        id is Some <==> bson_value(*value) is Id,
        id matches Some(i) ==> bson_value(*value) == Element::Id(object_id_bytes(*i)),
;

/// `OrderedDocument::new` returns a document without fields.
pub assume_specification[ bson::ordered::OrderedDocument::new ]() -> (document: Document)
    ensures
        document_fields(document) == Fields::empty(),
;

/// `OrderedDocument::insert_bson` sets the value under the key, replacing any
/// earlier value there, and returns that earlier value.
pub assume_specification[ bson::ordered::OrderedDocument::insert_bson ](
    document: &mut Document,
    key: String,
    val: Bson,
) -> (replaced: Option<Bson>)
    ensures
        document_fields(*final(document)) == document_fields(*old(document)).insert(
            key@,
            bson_value(val),
        ),
        replaced is Some <==> document_fields(*old(document)).contains_key(key@),
        replaced matches Some(earlier) ==> bson_value(earlier) == document_fields(
            *old(document),
        )[key@],
;

/// `OrderedDocument::get` returns the value under the key, if there is one.
pub assume_specification<'a>[ bson::ordered::OrderedDocument::get ](
    document: &'a Document,
    key: &str,
) -> (found: Option<&'a Bson>)
    ensures
        found is Some <==> document_fields(*document).contains_key(key@),
        found matches Some(value) ==> bson_value(*value) == document_fields(*document)[key@],
;

} // verus!
