//! The cache of decoder binaries, each kept under the hash that names it.

use crate::bytes::{copy_range, same_bytes};
use crate::error::Error;
use crate::hash::{hash_as_bytes, hash_bytes};
use crate::hex::{encode_hex, hex_encoded};
use ckb_types::H256;
use vstd::prelude::*;

verus! {

/// A decoder as it can be run: its binary, and the path under which the
/// cache keeps it.
#[derive(Debug, Clone, PartialEq, Eq)]
pub struct DecoderArtifact {
    pub bytes: Vec<u8>,
    pub path: String,
}

/// What a `DecoderArtifact` stands for.
pub struct DecoderArtifactModel {
    pub bytes: Seq<u8>,
    pub path: Seq<char>,
}

impl View for DecoderArtifact {
    type V = DecoderArtifactModel;

    open spec fn view(&self) -> DecoderArtifactModel {
        DecoderArtifactModel { bytes: self.bytes@, path: self.path@ }
    }
}

/// One binary of the cache, with the bytes of the hash that names it.
struct CacheEntry {
    key: Vec<u8>,
    bytes: Vec<u8>,
}

/// The decoder binaries that were stored, each under its hash, below one
/// root directory.
pub struct DecoderCache {
    root: String,
    entries: Vec<CacheEntry>,
}

/// The path of the binary named by the hash `key` in a cache below `root`:
/// the root, a `/`, and the hash in lower-case hexadecimal.
pub open spec fn cache_path(root: Seq<char>, key: Seq<u8>) -> Seq<char> {
    root + seq!['/'] + hex_encoded(key)
}

/// What `get` finds under `key` in a cache that holds `contents`.
pub open spec fn found_in(contents: Map<Seq<u8>, Seq<u8>>, key: Seq<u8>) -> Option<Seq<u8>> {
    if contents.contains_key(key) {
        Some(contents[key])
    } else {
        None
    }
}

/// Whether `put` refuses to store `bytes` under `key`: the cache has no root
/// directory, or it holds another binary under that hash.
pub open spec fn put_refused(
    contents: Map<Seq<u8>, Seq<u8>>,
    root: Seq<char>,
    key: Seq<u8>,
    bytes: Seq<u8>,
) -> bool {
    root.len() == 0 || (contents.contains_key(key) && contents[key] != bytes)
}

/// What a cache holds after `put` was called on it with `key` and `bytes`.
pub open spec fn contents_after_put(
    contents: Map<Seq<u8>, Seq<u8>>,
    root: Seq<char>,
    key: Seq<u8>,
    bytes: Seq<u8>,
) -> Map<Seq<u8>, Seq<u8>> {
    if put_refused(contents, root, key, bytes) {
        contents
    } else {
        contents.insert(key, bytes)
    }
}

/// Whether no two of `entries` have the same key.
spec fn distinct_keys(entries: Seq<CacheEntry>) -> bool {
    forall|i: int, j: int|
        0 <= i < entries.len() && 0 <= j < entries.len() && (#[trigger] entries[i]).key@ == (
        #[trigger] entries[j]).key@ ==> i == j
}

/// Whether `entries[i]` is kept under `key`.
spec fn keyed(entries: Seq<CacheEntry>, key: Seq<u8>, i: int) -> bool {
    0 <= i < entries.len() && entries[i].key@ == key
}

/// The binaries of `entries`, each under its key.
spec fn contents_of(entries: Seq<CacheEntry>) -> Map<Seq<u8>, Seq<u8>> {
    Map::new(
        |key: Seq<u8>| exists|i: int| keyed(entries, key, i),
        |key: Seq<u8>| entries[choose|i: int| keyed(entries, key, i)].bytes@,
    )
}

/// With distinct keys, each entry is what the contents hold under its key.
proof fn lemma_entry_in_contents(entries: Seq<CacheEntry>, i: int)
    requires
        distinct_keys(entries),
        0 <= i < entries.len(),
    ensures
        contents_of(entries).contains_key(entries[i].key@),
        contents_of(entries)[entries[i].key@] == entries[i].bytes@,
{
    let key = entries[i].key@;
    assert(keyed(entries, key, i));
    let j = choose|j: int| keyed(entries, key, j);
    assert(keyed(entries, key, j));
}

/// A new entry under a key that none of `entries` has adds that key to the
/// contents and changes nothing else.
proof fn lemma_contents_after_push(entries: Seq<CacheEntry>, entry: CacheEntry)
    requires
        distinct_keys(entries),
        !contents_of(entries).contains_key(entry.key@),
    ensures
        distinct_keys(entries.push(entry)),
        contents_of(entries.push(entry)) == contents_of(entries).insert(entry.key@, entry.bytes@),
{
    let after = entries.push(entry);
    assert forall|i: int, j: int|
        0 <= i < after.len() && 0 <= j < after.len() && (#[trigger] after[i]).key@ == (
        #[trigger] after[j]).key@ implies i == j by {
        if i < entries.len() {
            assert(after[i] == entries[i]);
            assert(keyed(entries, entries[i].key@, i));
        }
        if j < entries.len() {
            assert(after[j] == entries[j]);
            assert(keyed(entries, entries[j].key@, j));
        }
    }
    let expected = contents_of(entries).insert(entry.key@, entry.bytes@);
    assert forall|key: Seq<u8>| contents_of(after).contains_key(key) implies #[trigger] expected.contains_key(key) by {
        let i = choose|i: int| keyed(after, key, i);
        if i < entries.len() {
            assert(keyed(entries, key, i));
        }
    }
    assert forall|key: Seq<u8>| #[trigger] expected.contains_key(key) implies contents_of(after).contains_key(key) && contents_of(after)[key] == expected[key] by {
        if key == entry.key@ {
            assert(after[entries.len() as int] == entry);
            lemma_entry_in_contents(after, entries.len() as int);
        } else {
            let i = choose|i: int| keyed(entries, key, i);
            assert(keyed(entries, key, i));
            assert(after[i] == entries[i]);
            lemma_entry_in_contents(after, i);
            lemma_entry_in_contents(entries, i);
        }
    }
    assert(contents_of(after) =~= expected);
}

impl DecoderCache {
    /// No two binaries are kept under one hash.
    #[verifier::type_invariant]
    spec fn well_formed(&self) -> bool {
        distinct_keys(self.entries@)
    }

    /// The root directory of the cache.
    pub closed spec fn root(&self) -> Seq<char> {
        self.root@
    }

    /// An empty cache below the directory `root`.
    pub fn new(root: String) -> (cache: DecoderCache)
        ensures
            cache.root() == root@,
            cache@ == Map::<Seq<u8>, Seq<u8>>::empty(),
    {
        let cache = DecoderCache { root, entries: Vec::new() };
        assert(cache@ =~= Map::<Seq<u8>, Seq<u8>>::empty());
        cache
    }

    /// Whether the cache has a root directory.
    pub fn has_root(&self) -> (rooted: bool)
        ensures
            rooted == (self.root().len() > 0),
    {
        self.root.as_str().unicode_len() > 0
    }

    /// The place of the entry kept under `key`, if there is one.
    fn find(&self, key: &[u8]) -> (place: Option<usize>)
        ensures
            match place {
                Some(i) => keyed(self.entries@, key@, i as int),
                None => !self@.contains_key(key@),
            },
    {
        let mut i: usize = 0;
        while i < self.entries.len()
            invariant
                i <= self.entries.len(),
                forall|k: int| 0 <= k < i ==> !keyed(self.entries@, key@, k),
            decreases self.entries.len() - i,
        {
            if same_bytes(self.entries[i].key.as_slice(), key) {
                return Some(i);
            }
            i += 1;
        }
        None
    }

    /// The path under which the cache keeps the binary named by `hash`.
    pub fn path_of(&self, hash: &H256) -> (path: String)
        ensures
            path@ == cache_path(self.root(), hash_bytes(*hash)),
    {
        proof {
            reveal_strlit("/");
        }
        let mut path = self.root.clone();
        path.append("/");
        let name = encode_hex(hash_as_bytes(hash));
        path.append(name.as_str());
        assert("/"@ =~= seq!['/']);
        path
    }

    /// The decoder that is kept under `hash`, or `None` where the cache
    /// holds none under it.
    pub fn get(&self, hash: &H256) -> (artifact: Option<DecoderArtifact>)
        ensures
            match artifact {
                Some(artifact) => found_in(self@, hash_bytes(*hash)) == Some(artifact.bytes@)
                    && artifact.path@ == cache_path(self.root(), hash_bytes(*hash)),
                None => found_in(self@, hash_bytes(*hash)) is None,
            },
    {
        proof {
            use_type_invariant(self);
        }
        match self.find(hash_as_bytes(hash)) {
            Some(i) => {
                proof {
                    lemma_entry_in_contents(self.entries@, i as int);
                }
                let stored = &self.entries[i].bytes;
                let bytes = copy_range(stored.as_slice(), 0, stored.len());
                assert(bytes@ =~= stored@);
                Some(DecoderArtifact { bytes, path: self.path_of(hash) })
            },
            None => None,
        }
    }

    /// Stores `bytes` under `hash` and hands back the decoder as the cache
    /// keeps it.
    ///
    /// Storing the bytes that the cache already holds under `hash` changes
    /// nothing and succeeds. A cache without a root directory, and other
    /// bytes than those it holds under `hash`, fail with
    /// `DecoderBinaryPathInvalid` and change nothing.
    pub fn put(&mut self, hash: &H256, bytes: Vec<u8>) -> (artifact: Result<DecoderArtifact, Error>)
        ensures
            final(self).root() == old(self).root(),
            final(self)@ == contents_after_put(
                old(self)@,
                old(self).root(),
                hash_bytes(*hash),
                bytes@,
            ),
            match artifact {
                Ok(artifact) => !put_refused(
                    old(self)@,
                    old(self).root(),
                    hash_bytes(*hash),
                    bytes@,
                ) && artifact.bytes@ == bytes@ && artifact.path@ == cache_path(
                    old(self).root(),
                    hash_bytes(*hash),
                ),
                Err(error) => put_refused(old(self)@, old(self).root(), hash_bytes(*hash), bytes@)
                    && error == Error::DecoderBinaryPathInvalid,
            },
    {
        proof {
            use_type_invariant(&*self);
        }
        if !self.has_root() {
            return Err(Error::DecoderBinaryPathInvalid);
        }
        let key = hash_as_bytes(hash);
        match self.find(key) {
            Some(i) => {
                proof {
                    lemma_entry_in_contents(self.entries@, i as int);
                }
                if !same_bytes(self.entries[i].bytes.as_slice(), bytes.as_slice()) {
                    return Err(Error::DecoderBinaryPathInvalid);
                }
            },
            None => {
                let stored = copy_range(bytes.as_slice(), 0, bytes.len());
                assert(stored@ =~= bytes@);
                let entry = CacheEntry { key: copy_range(key, 0, key.len()), bytes: stored };
                assert(entry.key@ =~= key@);
                proof {
                    lemma_contents_after_push(self.entries@, entry);
                }
                let mut entries: Vec<CacheEntry> = Vec::new();
                std::mem::swap(&mut self.entries, &mut entries);
                entries.push(entry);
                std::mem::swap(&mut self.entries, &mut entries);
            },
        }
        let path = self.path_of(hash);
        Ok(DecoderArtifact { bytes, path })
    }
}

impl View for DecoderCache {
    type V = Map<Seq<u8>, Seq<u8>>;

    /// The binaries of the cache, each under the bytes of its hash.
    closed spec fn view(&self) -> Map<Seq<u8>, Seq<u8>> {
        contents_of(self.entries@)
    }
}

/// A binary that was stored is found again, unchanged: where `put` does not
/// refuse `bytes` under `key`, the cache holds `bytes` under `key` after it.
pub proof fn lemma_put_then_get(
    contents: Map<Seq<u8>, Seq<u8>>,
    root: Seq<char>,
    key: Seq<u8>,
    bytes: Seq<u8>,
)
    requires
        !put_refused(contents, root, key, bytes),
    ensures
        found_in(contents_after_put(contents, root, key, bytes), key) == Some(bytes),
{
}

/// Storing the same binary a second time changes nothing.
pub proof fn lemma_put_twice(
    contents: Map<Seq<u8>, Seq<u8>>,
    root: Seq<char>,
    key: Seq<u8>,
    bytes: Seq<u8>,
)
    ensures
        contents_after_put(contents_after_put(contents, root, key, bytes), root, key, bytes)
            == contents_after_put(contents, root, key, bytes),
        !put_refused(contents, root, key, bytes) ==> !put_refused(
            contents_after_put(contents, root, key, bytes),
            root,
            key,
            bytes,
        ),
{
    assert(contents_after_put(contents_after_put(contents, root, key, bytes), root, key, bytes)
        =~= contents_after_put(contents, root, key, bytes));
}

} // verus!
