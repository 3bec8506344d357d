use ckb_types::packed::BytesVec;
use ckb_types::prelude::{Builder, Entity, Pack};
use dob_decoder::molecule::{
    read_byte_string, read_cluster_data, read_number, read_spore_data, read_table, ClusterData,
    SporeData,
};

fn layout_byte_string(bytes: &[u8]) -> Vec<u8> {
    let mut out = (bytes.len() as u32).to_le_bytes().to_vec();
    out.extend_from_slice(bytes);
    out
}

fn layout_table(fields: &[Vec<u8>]) -> Vec<u8> {
    let header = 4 + 4 * fields.len();
    let total = header + fields.iter().map(Vec::len).sum::<usize>();
    let mut out = (total as u32).to_le_bytes().to_vec();
    let mut at = header;
    for field in fields {
        out.extend_from_slice(&(at as u32).to_le_bytes());
        at += field.len();
    }
    for field in fields {
        out.extend_from_slice(field);
    }
    out
}

fn layout_by_molecule(fields: &[&[u8]]) -> Vec<u8> {
    let mut builder = BytesVec::new_builder();
    for field in fields {
        builder = builder.push(field.pack());
    }
    builder.build().as_slice().to_vec()
}

#[test]
fn number_is_read_low_byte_first() {
    assert_eq!(read_number(&[1, 0, 0, 0], 0), 1);
    assert_eq!(read_number(&[0x78, 0x56, 0x34, 0x12], 0), 0x1234_5678);
    assert_eq!(read_number(&[9, 0xff, 0xff, 0xff, 0xff], 1), u32::MAX);
    assert_eq!(read_number(&[0, 1, 0, 0], 0), 256);
}

#[test]
fn byte_string_is_its_length_and_its_bytes() {
    assert_eq!(read_byte_string(&[2, 0, 0, 0, 7, 8], 0, 6), Some(vec![7, 8]));
    assert_eq!(read_byte_string(&[0, 0, 0, 0], 0, 4), Some(vec![]));
    assert_eq!(read_byte_string(&[9, 9, 1, 0, 0, 0, 5, 9], 2, 7), Some(vec![5]));
    assert_eq!(read_byte_string(&[2, 0, 0, 0, 7], 0, 5), None);
    assert_eq!(read_byte_string(&[1, 0, 0, 0, 7, 8], 0, 6), None);
    assert_eq!(read_byte_string(&[0, 0, 0], 0, 3), None);
    assert_eq!(read_byte_string(&[], 0, 0), None);
}

#[test]
fn spore_data_as_molecule_writes_it() {
    let data = layout_by_molecule(&[b"dob/1.0", b"{\"dna\":\"00\"}", &[5u8; 32]]);
    assert_eq!(
        read_spore_data(&data),
        Some(SporeData {
            content_type: b"dob/1.0".to_vec(),
            content: b"{\"dna\":\"00\"}".to_vec(),
            cluster_id: Some(vec![5u8; 32]),
        })
    );
}

#[test]
fn table_written_by_hand_is_the_one_molecule_writes() {
    let by_hand = layout_table(&[
        layout_byte_string(b"abc"),
        layout_byte_string(b""),
        layout_byte_string(&[1, 2, 3, 4, 5]),
    ]);
    assert_eq!(by_hand, layout_by_molecule(&[b"abc", b"", &[1, 2, 3, 4, 5]]));
}

#[test]
fn spore_data_without_a_cluster() {
    let data = layout_table(&[layout_byte_string(b"dob/0"), layout_byte_string(b"xyz"), vec![]]);
    assert_eq!(
        read_spore_data(&data),
        Some(SporeData { content_type: b"dob/0".to_vec(), content: b"xyz".to_vec(), cluster_id: None })
    );
}

#[test]
fn spore_data_with_an_empty_cluster_identifier() {
    let data = layout_by_molecule(&[b"t", b"c", b""]);
    assert_eq!(
        read_spore_data(&data),
        Some(SporeData { content_type: b"t".to_vec(), content: b"c".to_vec(), cluster_id: Some(vec![]) })
    );
}

#[test]
fn spore_data_passes_over_further_fields() {
    let data = layout_by_molecule(&[b"t", b"c", b"id", b"more", b"and more"]);
    assert_eq!(
        read_spore_data(&data),
        Some(SporeData {
            content_type: b"t".to_vec(),
            content: b"c".to_vec(),
            cluster_id: Some(b"id".to_vec()),
        })
    );
}

#[test]
fn spore_data_of_too_few_fields_is_refused() {
    assert_eq!(read_spore_data(&layout_by_molecule(&[b"t", b"c"])), None);
    assert_eq!(read_spore_data(&layout_by_molecule(&[b"t"])), None);
    assert_eq!(read_spore_data(&layout_by_molecule(&[])), None);
}

#[test]
fn spore_data_with_a_broken_field_is_refused() {
    let good = layout_byte_string(b"ok");
    let broken = vec![5, 0, 0, 0, 1];
    assert_eq!(read_spore_data(&layout_table(&[broken.clone(), good.clone(), good.clone()])), None);
    assert_eq!(read_spore_data(&layout_table(&[good.clone(), broken.clone(), good.clone()])), None);
    assert_eq!(read_spore_data(&layout_table(&[good.clone(), good.clone(), broken])), None);
    assert_eq!(read_spore_data(&layout_table(&[good.clone(), good.clone(), vec![0]])), None);
}

#[test]
fn data_that_is_no_table_is_refused() {
    let good = layout_by_molecule(&[b"t", b"c", b"id"]);
    assert!(read_spore_data(&good).is_some());
    assert_eq!(read_spore_data(&[]), None);
    assert_eq!(read_spore_data(&[1, 2, 3]), None);
    assert_eq!(read_spore_data(&good[..good.len() - 1]), None);
    let mut longer = good.clone();
    longer.push(0);
    assert_eq!(read_spore_data(&longer), None);
    let mut wrong_size = good.clone();
    wrong_size[0] += 1;
    assert_eq!(read_spore_data(&wrong_size), None);
    let mut odd_header = good.clone();
    odd_header[4] += 1;
    assert_eq!(read_spore_data(&odd_header), None);
    let mut short_header = good.clone();
    short_header[4] = 4;
    assert_eq!(read_spore_data(&short_header), None);
    let mut long_header = good.clone();
    long_header[4] = 252;
    assert_eq!(read_spore_data(&long_header), None);
    let mut backwards = good.clone();
    backwards[8] = 0xff;
    assert_eq!(read_spore_data(&backwards), None);
}

#[test]
fn table_ranges_are_those_of_its_fields() {
    let data = layout_table(&[vec![1, 2, 3], vec![], vec![4]]);
    assert_eq!(read_table(&data), Some(vec![(16, 19), (19, 19), (19, 20)]));
    assert_eq!(read_table(&[8, 0, 0, 0, 8, 0, 0, 0]), Some(vec![(8, 8)]));
    assert_eq!(read_table(&[4, 0, 0, 0]), None);
}

#[test]
fn cluster_data_as_molecule_writes_it() {
    let data = layout_by_molecule(&[b"name", b"{}"]);
    assert_eq!(
        read_cluster_data(&data),
        Some(ClusterData { name: b"name".to_vec(), description: b"{}".to_vec() })
    );
    let more = layout_by_molecule(&[b"name", b"{}", b"mutant"]);
    assert_eq!(
        read_cluster_data(&more),
        Some(ClusterData { name: b"name".to_vec(), description: b"{}".to_vec() })
    );
}

#[test]
fn cluster_data_that_is_broken_is_refused() {
    assert_eq!(read_cluster_data(&layout_by_molecule(&[b"name"])), None);
    assert_eq!(read_cluster_data(b"not a table"), None);
    assert_eq!(read_cluster_data(&layout_table(&[layout_byte_string(b"n"), vec![1, 2]])), None);
    assert_eq!(read_cluster_data(&layout_table(&[vec![], layout_byte_string(b"d")])), None);
}
