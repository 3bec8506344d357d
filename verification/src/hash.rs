//! The 32-byte hashes that name objects, clusters and decoders.

use crate::bytes::same_bytes;
use crate::error::Error;
use crate::hex::{decode_hex, hex_decoded, is_hex_text};
use ckb_types::H256;
use vstd::prelude::*;

verus! {

/// `ckb_types::H256`, a hash of 32 bytes.
#[verifier::external_type_specification]
#[verifier::external_body]
pub struct ExH256(H256);

/// The bytes that `hash` holds, as `H256::as_bytes` hands them out.
pub uninterp spec fn hash_bytes(hash: H256) -> Seq<u8>;

/// Whether `text` is `0x` followed by the 64 hexadecimal digits of a hash.
pub open spec fn is_prefixed_hash_text(text: Seq<char>) -> bool {
    &&& text.len() == 66
    &&& text[0] == '0'
    &&& text[1] == 'x'
    &&& is_hex_text(text.subrange(2, 66))
}

/// Calls `H256::as_bytes`, which hands out the 32 bytes of the hash.
#[verifier::external_body]
pub(crate) fn hash_as_bytes(hash: &H256) -> (bytes: &[u8])
    ensures
        bytes@ == hash_bytes(*hash),
        bytes@.len() == 32,
{
    hash.as_bytes()
}

/// `H256` derives `Clone`: the copy holds the same bytes.
pub assume_specification[ <H256 as Clone>::clone ](hash: &H256) -> (copy: H256)
    ensures
        hash_bytes(copy) == hash_bytes(*hash),
;

/// Calls `H256::from_slice`, which makes a hash of exactly 32 bytes and
/// refuses a slice of any other length.
#[verifier::external_body]
pub(crate) fn hash_from_slice(bytes: &[u8]) -> (hash: Option<H256>)
    ensures
        hash is Some <==> bytes@.len() == 32,
        hash is Some ==> hash_bytes(hash->0) == bytes@,
{
    H256::from_slice(bytes).ok()
}

/// Calls the `serde::Deserialize` impl of `H256` on a string. It accepts
/// `0x` followed by 64 hexadecimal digits of either case, and the hash holds
/// the byte that each pair of digits spells, the high half first.
#[verifier::external_body]
pub(crate) fn hash_from_prefixed_hex(text: &str) -> (hash: Option<H256>)
    ensures
        hash is Some <==> is_prefixed_hash_text(text@),
        hash is Some ==> hash_bytes(hash->0) == hex_decoded(text@.subrange(2, 66)),
{
    let source = serde::de::value::StrDeserializer::<serde::de::value::Error>::new(text);
    <H256 as serde::Deserialize>::deserialize(source).ok()
}

/// Whether two hashes hold the same bytes.
pub fn same_hash(left: &H256, right: &H256) -> (same: bool)
    ensures
        same == (hash_bytes(*left) == hash_bytes(*right)),
{
    same_bytes(hash_as_bytes(left), hash_as_bytes(right))
}

/// Whether some hash of `list` holds the bytes `wanted`.
pub open spec fn lists_hash(list: Seq<H256>, wanted: Seq<u8>) -> bool {
    exists|i: int| 0 <= i < list.len() && hash_bytes(#[trigger] list[i]) == wanted
}

/// Whether `hash` is on `list`.
pub fn hash_listed(list: &Vec<H256>, hash: &H256) -> (listed: bool)
    ensures
        listed == lists_hash(list@, hash_bytes(*hash)),
{
    let mut i: usize = 0;
    while i < list.len()
        invariant
            i <= list.len(),
            forall|k: int| 0 <= k < i ==> hash_bytes(#[trigger] list@[k]) != hash_bytes(*hash),
        decreases list.len() - i,
    {
        if same_hash(&list[i], hash) {
            return true;
        }
        i += 1;
    }
    false
}

/// What `parse_object_id` answers for the text `hexed`: the bytes of the
/// identifier, or the failure.
pub open spec fn object_id_of(hexed: Seq<char>) -> Result<Seq<u8>, Error> {
    if !is_hex_text(hexed) {
        Err(Error::HexedSporeIdParseError)
    } else if hexed.len() != 64 {
        Err(Error::SporeIdLengthInvalid)
    } else {
        Ok(hex_decoded(hexed))
    }
}

/// Reads the identifier of an object from its hexadecimal text. Text that is
/// no hexadecimal fails with `HexedSporeIdParseError`; hexadecimal text of
/// any other length than 32 bytes fails with `SporeIdLengthInvalid`.
pub fn parse_object_id(hexed: &str) -> (id: Result<H256, Error>)
    ensures
        match id {
            Ok(hash) => object_id_of(hexed@) == Ok::<Seq<u8>, Error>(hash_bytes(hash)),
            Err(error) => object_id_of(hexed@) == Err::<Seq<u8>, Error>(error),
        },
{
    match decode_hex(hexed) {
        None => Err(Error::HexedSporeIdParseError),
        Some(bytes) => match hash_from_slice(bytes.as_slice()) {
            None => Err(Error::SporeIdLengthInvalid),
            Some(hash) => Ok(hash),
        },
    }
}

} // verus!
