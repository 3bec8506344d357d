use ckb_types::H256;
use dob_decoder::cache::{DecoderArtifact, DecoderCache};
use dob_decoder::error::Error;
use dob_decoder::locator::{locate, needs_lookup, DecoderLookup};
use dob_decoder::types::{DOBDecoderFormat, DecoderLocationType};

fn path_under(root: &str, byte: u8) -> String {
    format!("{}/{}", root, format!("{:02x}", byte).repeat(32))
}

#[test]
fn cache_gives_back_what_was_put() {
    let mut cache = DecoderCache::new("/var/decoders".to_string());
    let hash = H256([0xaa; 32]);
    let stored = cache.put(&hash, vec![1, 2, 3]).unwrap();
    assert_eq!(stored, DecoderArtifact { bytes: vec![1, 2, 3], path: path_under("/var/decoders", 0xaa) });
    assert_eq!(cache.get(&hash), Some(stored));
}

#[test]
fn cache_round_trip_for_many_binaries() {
    let mut cache = DecoderCache::new("root".to_string());
    for byte in 0u8..20 {
        let bytes: Vec<u8> = (0..=byte).collect();
        cache.put(&H256([byte; 32]), bytes).unwrap();
    }
    for byte in 0u8..20 {
        let bytes: Vec<u8> = (0..=byte).collect();
        assert_eq!(cache.get(&H256([byte; 32])).unwrap().bytes, bytes);
    }
}

#[test]
fn cache_keeps_an_empty_binary_too() {
    let mut cache = DecoderCache::new("root".to_string());
    cache.put(&H256([1; 32]), vec![]).unwrap();
    assert_eq!(cache.get(&H256([1; 32])).unwrap().bytes, Vec::<u8>::new());
}

#[test]
fn cache_misses_what_was_never_put() {
    let mut cache = DecoderCache::new("root".to_string());
    assert_eq!(cache.get(&H256([1; 32])), None);
    cache.put(&H256([1; 32]), vec![9]).unwrap();
    assert_eq!(cache.get(&H256([2; 32])), None);
    let mut near = [1u8; 32];
    near[0] = 0;
    assert_eq!(cache.get(&H256(near)), None);
}

#[test]
fn put_of_the_same_bytes_twice_changes_nothing() {
    let mut cache = DecoderCache::new("root".to_string());
    let hash = H256([7; 32]);
    let first = cache.put(&hash, vec![4, 5]).unwrap();
    let second = cache.put(&hash, vec![4, 5]).unwrap();
    assert_eq!(first, second);
    assert_eq!(cache.get(&hash), Some(first));
}

#[test]
fn put_of_other_bytes_under_the_same_hash_fails() {
    let mut cache = DecoderCache::new("root".to_string());
    let hash = H256([7; 32]);
    cache.put(&hash, vec![4, 5]).unwrap();
    assert_eq!(cache.put(&hash, vec![4, 6]), Err(Error::DecoderBinaryPathInvalid));
    assert_eq!(cache.put(&hash, vec![]), Err(Error::DecoderBinaryPathInvalid));
    assert_eq!(cache.get(&hash).unwrap().bytes, vec![4, 5]);
}

#[test]
fn cache_without_a_root_stores_nothing() {
    let mut cache = DecoderCache::new(String::new());
    assert!(!cache.has_root());
    assert_eq!(cache.put(&H256([1; 32]), vec![1]), Err(Error::DecoderBinaryPathInvalid));
    assert_eq!(cache.get(&H256([1; 32])), None);
}

#[test]
fn path_is_the_root_and_the_hash_in_hex() {
    let cache = DecoderCache::new("/a/b".to_string());
    let mut bytes = [0u8; 32];
    bytes[0] = 0x01;
    bytes[31] = 0xfe;
    let expected = format!("/a/b/01{}fe", "00".repeat(30));
    assert_eq!(cache.path_of(&H256(bytes)), expected);
}

fn by_type_id(byte: u8) -> DOBDecoderFormat {
    DOBDecoderFormat { location: DecoderLocationType::TypeId, hash: H256([byte; 32]) }
}

fn by_code_hash(byte: u8) -> DOBDecoderFormat {
    DOBDecoderFormat { location: DecoderLocationType::CodeHash, hash: H256([byte; 32]) }
}

#[test]
fn locate_takes_the_binary_of_a_type_id_from_the_chain() {
    let mut cache = DecoderCache::new("root".to_string());
    assert!(needs_lookup(&by_type_id(3), &cache));
    let found = locate(&by_type_id(3), &mut cache, DecoderLookup::Found(vec![1, 2])).unwrap();
    assert_eq!(found, DecoderArtifact { bytes: vec![1, 2], path: path_under("root", 3) });
    assert_eq!(cache.get(&H256([3; 32])), Some(found));
    assert!(!needs_lookup(&by_type_id(3), &cache));
}

#[test]
fn locate_twice_gives_the_same_bytes() {
    let mut cache = DecoderCache::new("root".to_string());
    let first = locate(&by_type_id(3), &mut cache, DecoderLookup::Found(vec![1, 2])).unwrap();
    let second = locate(&by_type_id(3), &mut cache, DecoderLookup::Found(vec![1, 2])).unwrap();
    assert_eq!(first, second);
}

#[test]
fn locate_from_the_cache_does_not_read_the_chain() {
    let mut cache = DecoderCache::new("root".to_string());
    let first = locate(&by_type_id(3), &mut cache, DecoderLookup::Found(vec![1, 2])).unwrap();
    for answer in [
        DecoderLookup::Failed,
        DecoderLookup::NotFound,
        DecoderLookup::Unwritable,
        DecoderLookup::Found(vec![9, 9, 9]),
    ] {
        assert_eq!(locate(&by_type_id(3), &mut cache, answer), Ok(first.clone()));
    }
    assert_eq!(cache.get(&H256([3; 32])).unwrap().bytes, vec![1, 2]);
}

#[test]
fn locate_by_code_hash_looks_in_the_cache_only() {
    let mut cache = DecoderCache::new("root".to_string());
    assert!(!needs_lookup(&by_code_hash(5), &cache));
    assert_eq!(
        locate(&by_code_hash(5), &mut cache, DecoderLookup::Found(vec![1])),
        Err(Error::NativeDecoderNotFound)
    );
    assert_eq!(
        locate(&by_code_hash(5), &mut cache, DecoderLookup::NotFound),
        Err(Error::NativeDecoderNotFound)
    );
    assert_eq!(cache.get(&H256([5; 32])), None);
    cache.put(&H256([5; 32]), vec![8, 8]).unwrap();
    assert_eq!(
        locate(&by_code_hash(5), &mut cache, DecoderLookup::NotFound).unwrap().bytes,
        vec![8, 8]
    );
}

#[test]
fn locate_fails_as_the_chain_does() {
    let mut cache = DecoderCache::new("root".to_string());
    assert_eq!(
        locate(&by_type_id(1), &mut cache, DecoderLookup::Failed),
        Err(Error::FetchLiveCellsError)
    );
    assert_eq!(
        locate(&by_type_id(1), &mut cache, DecoderLookup::NotFound),
        Err(Error::DecoderIdNotFound)
    );
    assert_eq!(
        locate(&by_type_id(1), &mut cache, DecoderLookup::Unwritable),
        Err(Error::DecoderBinaryPathInvalid)
    );
    assert_eq!(cache.get(&H256([1; 32])), None);
}

#[test]
fn locate_without_a_root_fails() {
    let mut cache = DecoderCache::new(String::new());
    assert!(!needs_lookup(&by_type_id(1), &cache));
    assert_eq!(
        locate(&by_type_id(1), &mut cache, DecoderLookup::Found(vec![1])),
        Err(Error::DecoderBinaryPathInvalid)
    );
    assert_eq!(
        locate(&by_code_hash(1), &mut cache, DecoderLookup::NotFound),
        Err(Error::DecoderBinaryPathInvalid)
    );
}
