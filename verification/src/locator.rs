//! Finding the binary of the decoder that a cluster refers to.
//!
//! A reference by code hash names a binary that the cache was given; it is
//! looked for there and nowhere else. A reference by type identifier names a
//! binary on the chain; it is looked for in the cache first, and the chain is
//! asked only where the cache holds none.

use crate::cache::{cache_path, DecoderArtifact, DecoderArtifactModel, DecoderCache};
use crate::error::Error;
use crate::types::{DOBDecoderFormat, DecoderLocationType, DecoderModel};
use vstd::prelude::*;

verus! {

/// The answer of the chain to the question for the binary of a type
/// identifier. A binary that was found has been written to its path before
/// the answer is given.
#[derive(Debug, Clone, PartialEq, Eq)]
pub enum DecoderLookup {
    /// The chain could not be asked, or did not answer.
    Failed,
    /// No live cell has the type identifier.
    NotFound,
    /// The binary could not be written to its path.
    Unwritable,
    /// The binary.
    Found(Vec<u8>),
}

/// Whether the chain has to be asked for the decoder `reference`, given what
/// the cache holds: the reference is by type identifier, and the cache has a
/// root and holds no binary under the hash.
pub open spec fn lookup_needed(
    reference: DecoderModel,
    contents: Map<Seq<u8>, Seq<u8>>,
    root: Seq<char>,
) -> bool {
    root.len() > 0 && !contents.contains_key(reference.hash) && reference.location
        == DecoderLocationType::TypeId
}

/// What `locate` answers: the decoder, or the failure.
pub open spec fn located(
    reference: DecoderModel,
    contents: Map<Seq<u8>, Seq<u8>>,
    root: Seq<char>,
    lookup: DecoderLookup,
) -> Result<DecoderArtifactModel, Error> {
    if root.len() == 0 {
        Err(Error::DecoderBinaryPathInvalid)
    } else if contents.contains_key(reference.hash) {
        Ok(
            DecoderArtifactModel {
                bytes: contents[reference.hash],
                path: cache_path(root, reference.hash),
            },
        )
    } else if reference.location == DecoderLocationType::CodeHash {
        Err(Error::NativeDecoderNotFound)
    } else {
        match lookup {
            DecoderLookup::Failed => Err(Error::FetchLiveCellsError),
            DecoderLookup::NotFound => Err(Error::DecoderIdNotFound),
            DecoderLookup::Unwritable => Err(Error::DecoderBinaryPathInvalid),
            DecoderLookup::Found(bytes) => Ok(
                DecoderArtifactModel { bytes: bytes@, path: cache_path(root, reference.hash) },
            ),
        }
    }
}

/// What the cache holds after `locate`: the binary that was found on the
/// chain is added, and nothing else changes.
pub open spec fn contents_after_locate(
    reference: DecoderModel,
    contents: Map<Seq<u8>, Seq<u8>>,
    root: Seq<char>,
    lookup: DecoderLookup,
) -> Map<Seq<u8>, Seq<u8>> {
    match lookup {
        DecoderLookup::Found(bytes) => if lookup_needed(reference, contents, root) {
            contents.insert(reference.hash, bytes@)
        } else {
            contents
        },
        _ => contents,
    }
}

/// Whether the chain has to be asked for the decoder `reference`.
pub fn needs_lookup(reference: &DOBDecoderFormat, cache: &DecoderCache) -> (needed: bool)
    ensures
        needed == lookup_needed(reference@, cache@, cache.root()),
{
    match reference.location {
        DecoderLocationType::CodeHash => false,
        DecoderLocationType::TypeId => cache.has_root() && cache.get(&reference.hash).is_none(),
    }
}

/// Finds the decoder `reference`. `lookup` is the answer of the chain for
/// the reference; it is read only where `needs_lookup` holds.
///
/// A cache without a root directory fails with `DecoderBinaryPathInvalid`.
/// A binary that the cache holds under the hash is the decoder, whatever the
/// chain answered. Otherwise a reference by code hash fails with
/// `NativeDecoderNotFound`, and one by type identifier goes by the answer of
/// the chain: a failed answer fails with `FetchLiveCellsError`, no binary with
/// `DecoderIdNotFound`, one that could not be written with
/// `DecoderBinaryPathInvalid`, and a binary is stored in the cache and is
/// the decoder.
pub fn locate(reference: &DOBDecoderFormat, cache: &mut DecoderCache, lookup: DecoderLookup) -> (artifact:
    Result<DecoderArtifact, Error>)
    ensures
        final(cache).root() == old(cache).root(),
        final(cache)@ == contents_after_locate(
            reference@,
            old(cache)@,
            old(cache).root(),
            lookup,
        ),
        match artifact {
            Ok(artifact) => located(reference@, old(cache)@, old(cache).root(), lookup) == Ok::<
                DecoderArtifactModel,
                Error,
            >(artifact@),
            Err(error) => located(reference@, old(cache)@, old(cache).root(), lookup) == Err::<
                DecoderArtifactModel,
                Error,
            >(error),
        },
{
    if !cache.has_root() {
        return Err(Error::DecoderBinaryPathInvalid);
    }
    if let Some(artifact) = cache.get(&reference.hash) {
        return Ok(artifact);
    }
    match reference.location {
        DecoderLocationType::CodeHash => Err(Error::NativeDecoderNotFound),
        DecoderLocationType::TypeId => match lookup {
            DecoderLookup::Failed => Err(Error::FetchLiveCellsError),
            DecoderLookup::NotFound => Err(Error::DecoderIdNotFound),
            DecoderLookup::Unwritable => Err(Error::DecoderBinaryPathInvalid),
            DecoderLookup::Found(bytes) => cache.put(&reference.hash, bytes),
        },
    }
}

/// The decoder that was found once is found again, with the same bytes under
/// the same path, whatever the chain answers the second time.
pub proof fn lemma_locate_again(
    reference: DecoderModel,
    contents: Map<Seq<u8>, Seq<u8>>,
    root: Seq<char>,
    first: DecoderLookup,
    second: DecoderLookup,
)
    requires
        located(reference, contents, root, first) is Ok,
    ensures
        located(reference, contents_after_locate(reference, contents, root, first), root, second)
            == located(reference, contents, root, first),
        contents_after_locate(
            reference,
            contents_after_locate(reference, contents, root, first),
            root,
            second,
        ) == contents_after_locate(reference, contents, root, first),
{
}

} // verus!
