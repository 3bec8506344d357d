//! The documents that cells carry in JSON: the description of a cluster and
//! the content of an object.

use crate::error::Error;
use crate::hash::{hash_from_prefixed_hex, is_prefixed_hash_text};
use crate::hex::hex_decoded;
use crate::pattern::optional_text;
use crate::types::{
    ClusterDescriptionField, ClusterDescriptionModel, ClusterFormatModel, DOBClusterFormat,
    DOBDecoderFormat, DecoderLocationType, DecoderModel,
};
use serde_json::Value;
use vstd::prelude::*;

verus! {

/// `serde_json::Value`, a JSON document or a part of one.
#[verifier::external_type_specification]
#[verifier::external_body]
pub struct ExValue(Value);

/// The document that `serde_json::from_slice` reads from `bytes`, or `None`
/// where it refuses them.
pub uninterp spec fn json_document(bytes: Seq<u8>) -> Option<Value>;

/// The part of `value` that `Value::pointer` finds at the JSON pointer
/// `pointer`, or `None` where it finds none.
pub uninterp spec fn json_member(value: Value, pointer: Seq<char>) -> Option<Value>;

/// The text that `Value::as_str` hands out for `value`, or `None` where
/// `value` is no string.
pub uninterp spec fn json_text(value: Value) -> Option<Seq<char>>;

/// The number that `Value::as_u64` hands out for `value`, or `None` where
/// `value` is no integer from 0 to the largest `u64`.
pub uninterp spec fn json_number(value: Value) -> Option<u64>;

/// Calls `serde_json::from_slice` for a `Value`. What it reads depends on
/// the bytes alone.
#[verifier::external_body]
fn read_document(bytes: &[u8]) -> (document: Option<Value>)
    ensures
        document == json_document(bytes@),
{
    serde_json::from_slice::<Value>(bytes).ok()
}

/// Calls `Value::pointer`. What it finds depends on the value and the
/// pointer alone.
#[verifier::external_body]
fn member<'a>(value: &'a Value, pointer: &str) -> (found: Option<&'a Value>)
    ensures
        match found {
            Some(part) => json_member(*value, pointer@) == Some(*part),
            None => json_member(*value, pointer@) is None,
        },
{
    value.pointer(pointer)
}

/// Calls `Value::as_str`, and copies the text.
#[verifier::external_body]
fn text_of(value: &Value) -> (text: Option<String>)
    ensures
        optional_text(text) == json_text(*value),
{
    value.as_str().map(String::from)
}

/// Calls `Value::as_u64`.
#[verifier::external_body]
fn number_of(value: &Value) -> (number: Option<u64>)
    ensures
        number == json_number(*value),
{
    value.as_u64()
}

/// The text at `pointer` in `document`, if a string stands there.
pub open spec fn text_at(document: Value, pointer: Seq<char>) -> Option<Seq<char>> {
    match json_member(document, pointer) {
        Some(part) => json_text(part),
        None => None,
    }
}

/// The number at `pointer` in `document`, if an integer from 0 to the
/// largest `u64` stands there.
pub open spec fn number_at(document: Value, pointer: Seq<char>) -> Option<u64> {
    match json_member(document, pointer) {
        Some(part) => json_number(part),
        None => None,
    }
}

/// The text that says of which kind a decoder's hash is. It stands under
/// `type` or under `location`; a decoder with both has none.
pub open spec fn kind_at(document: Value) -> Option<Seq<char>> {
    if json_member(document, "/dob/decoder/type"@) is Some {
        if json_member(document, "/dob/decoder/location"@) is Some {
            None
        } else {
            text_at(document, "/dob/decoder/type"@)
        }
    } else {
        text_at(document, "/dob/decoder/location"@)
    }
}

/// The members of a cluster's description as they stand in its document,
/// each absent where the document has no member of that name and type.
#[derive(Debug, Clone, PartialEq, Eq)]
pub struct ClusterDescriptionParts {
    pub description: Option<String>,
    pub kind: Option<String>,
    pub hash: Option<String>,
    pub pattern: Option<String>,
    pub dna_bytes: Option<u64>,
}

/// What `ClusterDescriptionParts` stands for.
pub struct ClusterDescriptionPartsModel {
    pub description: Option<Seq<char>>,
    pub kind: Option<Seq<char>>,
    pub hash: Option<Seq<char>>,
    pub pattern: Option<Seq<char>>,
    pub dna_bytes: Option<u64>,
}

impl View for ClusterDescriptionParts {
    type V = ClusterDescriptionPartsModel;

    open spec fn view(&self) -> ClusterDescriptionPartsModel {
        ClusterDescriptionPartsModel {
            description: optional_text(self.description),
            kind: optional_text(self.kind),
            hash: optional_text(self.hash),
            pattern: optional_text(self.pattern),
            dna_bytes: self.dna_bytes,
        }
    }
}

/// The members of a cluster's description in `document`.
pub open spec fn parts_of(document: Value) -> ClusterDescriptionPartsModel {
    ClusterDescriptionPartsModel {
        description: text_at(document, "/description"@),
        kind: kind_at(document),
        hash: text_at(document, "/dob/decoder/hash"@),
        pattern: text_at(document, "/dob/pattern"@),
        dna_bytes: number_at(document, "/dob/dna_bytes"@),
    }
}

/// The kind of hash that `text` names, if it names one.
pub open spec fn location_named(text: Seq<char>) -> Option<DecoderLocationType> {
    if text == "type_id"@ || text == "TypeId"@ {
        Some(DecoderLocationType::TypeId)
    } else if text == "code_hash"@ || text == "CodeHash"@ {
        Some(DecoderLocationType::CodeHash)
    } else {
        None
    }
}

/// The description that `parts` make up, if they make up one: every member
/// is there, the kind of the hash is named, the hash is `0x` and 64
/// hexadecimal digits, and the length of the DNA fits in a byte.
pub open spec fn description_of_parts(parts: ClusterDescriptionPartsModel) -> Option<
    ClusterDescriptionModel,
> {
    if parts.description is Some && parts.kind is Some && location_named(parts.kind->0) is Some
        && parts.hash is Some && is_prefixed_hash_text(parts.hash->0) && parts.pattern is Some
        && parts.dna_bytes is Some && parts.dna_bytes->0 <= 255 {
        Some(
            ClusterDescriptionModel {
                description: parts.description->0,
                dob: ClusterFormatModel {
                    decoder: DecoderModel {
                        location: location_named(parts.kind->0)->0,
                        hash: hex_decoded(parts.hash->0.subrange(2, 66)),
                    },
                    pattern: parts.pattern->0,
                    dna_bytes: parts.dna_bytes->0 as u8,
                },
            },
        )
    } else {
        None
    }
}

/// The description of a cluster that the bytes `description` spell, if they
/// spell one.
pub open spec fn cluster_description_of(description: Seq<u8>) -> Option<ClusterDescriptionModel> {
    match json_document(description) {
        Some(document) => description_of_parts(parts_of(document)),
        None => None,
    }
}

/// The DNA text that the bytes `content` of an object hold: the string under
/// `dna` of the document that they spell.
pub open spec fn content_dna_of(content: Seq<u8>) -> Option<Seq<char>> {
    match json_document(content) {
        Some(document) => text_at(document, "/dna"@),
        None => None,
    }
}

/// The text at `pointer` in `document`, if a string stands there.
fn read_text(document: &Value, pointer: &str) -> (text: Option<String>)
    ensures
        optional_text(text) == text_at(*document, pointer@),
{
    match member(document, pointer) {
        Some(part) => text_of(part),
        None => None,
    }
}

/// The members of a cluster's description in `document`.
fn read_parts(document: &Value) -> (parts: ClusterDescriptionParts)
    ensures
        parts@ == parts_of(*document),
{
    let kind = if member(document, "/dob/decoder/type").is_some() {
        if member(document, "/dob/decoder/location").is_some() {
            None
        } else {
            read_text(document, "/dob/decoder/type")
        }
    } else {
        read_text(document, "/dob/decoder/location")
    };
    let dna_bytes = match member(document, "/dob/dna_bytes") {
        Some(part) => number_of(part),
        None => None,
    };
    ClusterDescriptionParts {
        description: read_text(document, "/description"),
        kind,
        hash: read_text(document, "/dob/decoder/hash"),
        pattern: read_text(document, "/dob/pattern"),
        dna_bytes,
    }
}

/// The kind of hash that `text` names, if it names one.
pub fn location_of_name(text: &String) -> (location: Option<DecoderLocationType>)
    ensures
        location == location_named(text@),
{
    if *text == "type_id".to_owned() || *text == "TypeId".to_owned() {
        Some(DecoderLocationType::TypeId)
    } else if *text == "code_hash".to_owned() || *text == "CodeHash".to_owned() {
        Some(DecoderLocationType::CodeHash)
    } else {
        None
    }
}

/// Makes the description of a cluster from the members of its document.
///
/// It fails with `ClusterDataUncompatible` where a member is absent, the
/// kind of the decoder's hash is none of `type_id`, `TypeId`, `code_hash` and
/// `CodeHash`, the hash is not `0x` and 64 hexadecimal digits, or the length
/// of the DNA does not fit in a byte.
pub fn assemble_cluster_description(parts: ClusterDescriptionParts) -> (description: Result<
    ClusterDescriptionField,
    Error,
>)
    ensures
        match description {
            Ok(description) => description_of_parts(parts@) == Some(description@),
            Err(error) => description_of_parts(parts@) is None && error
                == Error::ClusterDataUncompatible,
        },
{
    let ClusterDescriptionParts { description, kind, hash, pattern, dna_bytes } = parts;
    match (description, kind, hash, pattern, dna_bytes) {
        (Some(description), Some(kind), Some(hash), Some(pattern), Some(dna_bytes)) => {
            let location = location_of_name(&kind);
            let hash = hash_from_prefixed_hex(hash.as_str());
            match (location, hash) {
                (Some(location), Some(hash)) => {
                    if dna_bytes > 255 {
                        return Err(Error::ClusterDataUncompatible);
                    }
                    Ok(
                        ClusterDescriptionField {
                            description,
                            dob: DOBClusterFormat {
                                decoder: DOBDecoderFormat { location, hash },
                                pattern,
                                dna_bytes: dna_bytes as u8,
                            },
                        },
                    )
                },
                _ => Err(Error::ClusterDataUncompatible),
            }
        },
        _ => Err(Error::ClusterDataUncompatible),
    }
}

/// Reads the description of a cluster from the bytes of its document.
///
/// The document is JSON: an object with the string `description` and the
/// object `dob`, which holds the object `decoder` with the strings `type`
/// (or, in its place, `location`) and `hash`, the string `pattern` and the
/// number `dna_bytes`. Further members are passed over. Bytes that are no
/// such document fail with `ClusterDataUncompatible`.
pub fn read_cluster_description(description: &[u8]) -> (field: Result<
    ClusterDescriptionField,
    Error,
>)
    ensures
        match field {
            Ok(field) => cluster_description_of(description@) == Some(field@),
            Err(error) => cluster_description_of(description@) is None && error
                == Error::ClusterDataUncompatible,
        },
{
    match read_document(description) {
        Some(document) => assemble_cluster_description(read_parts(&document)),
        None => Err(Error::ClusterDataUncompatible),
    }
}

/// Reads the DNA text of an object from the bytes of its content.
///
/// The content is JSON: an object with the string `dna`. Bytes that are no
/// such document fail with `DOBContentUnexpected`.
pub fn read_content_dna(content: &[u8]) -> (dna: Result<String, Error>)
    ensures
        match dna {
            Ok(dna) => content_dna_of(content@) == Some(dna@),
            Err(error) => content_dna_of(content@) is None && error == Error::DOBContentUnexpected,
        },
{
    match read_document(content) {
        Some(document) => match read_text(&document, "/dna") {
            Some(dna) => Ok(dna),
            None => Err(Error::DOBContentUnexpected),
        },
        None => Err(Error::DOBContentUnexpected),
    }
}

} // verus!
