use ckb_types::H256;
use dob_decoder::chain::{
    read_version, resolve_cluster, resolve_object, CellLookup, ClusterRecord, LiveCell,
    ObjectRecord,
};
use dob_decoder::error::Error;
use dob_decoder::types::{
    ClusterDescriptionField, DOBClusterFormat, DOBDecoderFormat, DecoderLocationType,
};

fn record_byte_string(bytes: &[u8]) -> Vec<u8> {
    let mut out = (bytes.len() as u32).to_le_bytes().to_vec();
    out.extend_from_slice(bytes);
    out
}

fn record_table(fields: &[Vec<u8>]) -> Vec<u8> {
    let header = 4 + 4 * fields.len();
    let total = header + fields.iter().map(Vec::len).sum::<usize>();
    let mut out = (total as u32).to_le_bytes().to_vec();
    let mut at = header;
    for field in fields {
        out.extend_from_slice(&(at as u32).to_le_bytes());
        at += field.len();
    }
    for field in fields {
        out.extend_from_slice(field);
    }
    out
}

fn object_data(content_type: &[u8], content: &[u8], cluster: Option<&[u8]>) -> Vec<u8> {
    record_table(&[
        record_byte_string(content_type),
        record_byte_string(content),
        cluster.map(record_byte_string).unwrap_or_default(),
    ])
}

fn object_cell(data: Vec<u8>) -> CellLookup {
    CellLookup::Found(LiveCell { code_hash: H256([0x51; 32]), data, block_number: 120, cell_id: 7 })
}

fn allowed() -> Vec<H256> {
    vec![H256([0x50; 32]), H256([0x51; 32])]
}

#[test]
fn object_record_of_a_live_cell() {
    let data = object_data(b"dob/1.0", b"{\"dna\":\"00\"}", Some(&[0xcc; 32]));
    assert_eq!(
        resolve_object(&H256([0xaa; 32]), object_cell(data), &allowed()),
        Ok(ObjectRecord {
            id: H256([0xaa; 32]),
            cluster_id: Some(H256([0xcc; 32])),
            content: b"{\"dna\":\"00\"}".to_vec(),
            version: b"1.0".to_vec(),
            block_number: 120,
            cell_id: 7,
        })
    );
}

#[test]
fn object_that_the_chain_could_not_be_asked_for() {
    assert_eq!(
        resolve_object(&H256([0xaa; 32]), CellLookup::Failed, &allowed()),
        Err(Error::FetchLiveCellsError)
    );
}

#[test]
fn object_without_a_live_cell() {
    assert_eq!(
        resolve_object(&H256([0xaa; 32]), CellLookup::NotFound, &allowed()),
        Err(Error::SporeIdNotFound)
    );
}

#[test]
fn object_of_a_type_that_is_not_listed() {
    let data = object_data(b"dob/1.0", b"{}", Some(&[0xcc; 32]));
    assert_eq!(
        resolve_object(&H256([0xaa; 32]), object_cell(data.clone()), &vec![H256([0x50; 32])]),
        Err(Error::SporeIdNotFound)
    );
    assert_eq!(
        resolve_object(&H256([0xaa; 32]), object_cell(data), &vec![]),
        Err(Error::SporeIdNotFound)
    );
}

#[test]
fn object_with_data_of_another_layout() {
    for data in [vec![], vec![1, 2, 3], b"{\"dna\":\"00\"}".to_vec(), record_table(&[record_byte_string(b"dob/1.0")])] {
        assert_eq!(
            resolve_object(&H256([0xaa; 32]), object_cell(data), &allowed()),
            Err(Error::SporeDataUncompatible)
        );
    }
}

#[test]
fn object_of_another_media_type() {
    for tag in [&b"text/plain"[..], b"", b"dob", b"DOB/1.0", b" dob/1.0", b"image/dob/1.0"] {
        let data = object_data(tag, b"{}", Some(&[0xcc; 32]));
        assert_eq!(
            resolve_object(&H256([0xaa; 32]), object_cell(data), &allowed()),
            Err(Error::SporeDataContentTypeUncompatible)
        );
    }
}

#[test]
fn object_that_declares_no_cluster() {
    let data = object_data(b"dob/1.0", b"{}", None);
    assert_eq!(
        resolve_object(&H256([0xaa; 32]), object_cell(data), &allowed()),
        Err(Error::ClusterIdNotSet)
    );
}

#[test]
fn object_whose_cluster_is_no_identifier_has_none() {
    for declared in [&[][..], &[1, 2, 3], &[0xcc; 31], &[0xcc; 33]] {
        let data = object_data(b"dob/1.0", b"{}", Some(declared));
        let record = resolve_object(&H256([0xaa; 32]), object_cell(data), &allowed()).unwrap();
        assert_eq!(record.cluster_id, None);
        assert_eq!(record.id, H256([0xaa; 32]));
    }
}

#[test]
fn failures_of_an_object_come_in_one_order() {
    let unlisted = CellLookup::Found(LiveCell {
        code_hash: H256([0x99; 32]),
        data: vec![1],
        block_number: 0,
        cell_id: 0,
    });
    assert_eq!(resolve_object(&H256([0xaa; 32]), unlisted, &allowed()), Err(Error::SporeIdNotFound));
    let wrong_tag_no_cluster = object_data(b"text", b"{}", None);
    assert_eq!(
        resolve_object(&H256([0xaa; 32]), object_cell(wrong_tag_no_cluster), &allowed()),
        Err(Error::SporeDataContentTypeUncompatible)
    );
}

#[test]
fn version_is_what_follows_the_media_type() {
    assert_eq!(read_version(b"dob/1.0"), Some(b"1.0".to_vec()));
    assert_eq!(read_version(b"dob/"), Some(vec![]));
    assert_eq!(read_version(b"dob/0/x"), Some(b"0/x".to_vec()));
    assert_eq!(read_version(b"dob"), None);
    assert_eq!(read_version(b"dob:1.0"), None);
    assert_eq!(read_version(b"dot/1.0"), None);
    assert_eq!(read_version(b"eob/1.0"), None);
    assert_eq!(read_version(b"dpb/1.0"), None);
    assert_eq!(read_version(b""), None);
}

fn cluster_document(pattern: &str, dna_bytes: u8) -> Vec<u8> {
    format!(
        "{{\"description\":\"things\",\"dob\":{{\"decoder\":{{\"type\":\"type_id\",\"hash\":\"0x{}\"}},\"pattern\":\"{pattern}\",\"dna_bytes\":{dna_bytes}}}}}",
        "dd".repeat(32)
    )
    .into_bytes()
}

fn cluster_cell(data: Vec<u8>) -> CellLookup {
    CellLookup::Found(LiveCell { code_hash: H256([0x61; 32]), data, block_number: 3, cell_id: 0 })
}

#[test]
fn cluster_record_of_a_live_cell() {
    let data = record_table(&[record_byte_string(b"name"), record_byte_string(&cluster_document("0:1", 4))]);
    assert_eq!(
        resolve_cluster(&H256([0xcc; 32]), cluster_cell(data), &vec![H256([0x61; 32])]),
        Ok(ClusterRecord {
            id: H256([0xcc; 32]),
            description: ClusterDescriptionField {
                description: "things".to_string(),
                dob: DOBClusterFormat {
                    decoder: DOBDecoderFormat {
                        location: DecoderLocationType::TypeId,
                        hash: H256([0xdd; 32]),
                    },
                    pattern: "0:1".to_string(),
                    dna_bytes: 4,
                },
            },
        })
    );
}

#[test]
fn cluster_that_is_not_there() {
    let listed = vec![H256([0x61; 32])];
    assert_eq!(
        resolve_cluster(&H256([0xcc; 32]), CellLookup::Failed, &listed),
        Err(Error::FetchLiveCellsError)
    );
    assert_eq!(
        resolve_cluster(&H256([0xcc; 32]), CellLookup::NotFound, &listed),
        Err(Error::ClusterIdNotFound)
    );
    let data = record_table(&[record_byte_string(b"name"), record_byte_string(&cluster_document("0:1", 4))]);
    assert_eq!(
        resolve_cluster(&H256([0xcc; 32]), cluster_cell(data), &vec![H256([0x62; 32])]),
        Err(Error::ClusterIdNotFound)
    );
}

#[test]
fn cluster_with_uncompatible_data() {
    let listed = vec![H256([0x61; 32])];
    assert_eq!(
        resolve_cluster(&H256([0xcc; 32]), cluster_cell(vec![0, 1, 2]), &listed),
        Err(Error::ClusterDataUncompatible)
    );
    let no_dob = record_table(&[
        record_byte_string(b"name"),
        record_byte_string(b"{\"description\":\"things\"}"),
    ]);
    assert_eq!(
        resolve_cluster(&H256([0xcc; 32]), cluster_cell(no_dob), &listed),
        Err(Error::ClusterDataUncompatible)
    );
    let plain = record_table(&[record_byte_string(b"name"), record_byte_string(b"just words")]);
    assert_eq!(
        resolve_cluster(&H256([0xcc; 32]), cluster_cell(plain), &listed),
        Err(Error::ClusterDataUncompatible)
    );
}
