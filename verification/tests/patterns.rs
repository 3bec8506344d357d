use dob_decoder::error::Error;
use dob_decoder::pattern::{extract, fits, parse_pattern, ExtractedTrait, ExtractedTraits, TraitSlice};

fn slice_of(transform: Option<&str>, value: &[u8]) -> ExtractedTrait {
    ExtractedTrait { transform: transform.map(String::from), value: value.to_vec() }
}

#[test]
fn extract_cuts_one_slice_for_each_descriptor() {
    let traits = extract(&[1, 2, 3, 4], "0:1,1:2:hex,3:1", 4).unwrap();
    assert_eq!(
        traits,
        ExtractedTraits {
            traits: vec![slice_of(None, &[1]), slice_of(Some("hex"), &[2, 3]), slice_of(None, &[4])],
        }
    );
}

#[test]
fn extract_keeps_the_order_of_the_descriptors() {
    let traits = extract(&[10, 20, 30], "2:1,0:1,1:1,0:3", 3).unwrap();
    assert_eq!(
        traits.traits,
        vec![
            slice_of(None, &[30]),
            slice_of(None, &[10]),
            slice_of(None, &[20]),
            slice_of(None, &[10, 20, 30]),
        ]
    );
}

#[test]
fn extract_with_the_empty_pattern_cuts_nothing() {
    assert_eq!(extract(&[1, 2], "", 2), Ok(ExtractedTraits { traits: vec![] }));
    assert_eq!(extract(&[], "", 0), Ok(ExtractedTraits { traits: vec![] }));
}

#[test]
fn extract_fails_on_dna_of_another_length() {
    assert_eq!(extract(&[1, 2, 3], "0:1", 4), Err(Error::DnaLengthNotMatch));
    assert_eq!(extract(&[1, 2, 3, 4, 5], "0:1", 4), Err(Error::DnaLengthNotMatch));
    assert_eq!(extract(&[], "", 1), Err(Error::DnaLengthNotMatch));
    assert_eq!(extract(&[1], "", 0), Err(Error::DnaLengthNotMatch));
}

#[test]
fn extract_reports_the_length_before_the_pattern() {
    assert_eq!(extract(&[1, 2, 3], "not a pattern", 4), Err(Error::DnaLengthNotMatch));
    assert_eq!(extract(&[1, 2, 3], "0:9", 2), Err(Error::DnaLengthNotMatch));
}

#[test]
fn extract_length_failure_exactly_on_length_mismatch() {
    let patterns = ["", "0:1", "0:1:hex", "bad", "0:200"];
    for declared in 0u8..6 {
        for held in 0usize..6 {
            let dna = vec![7u8; held];
            for pattern in patterns {
                let failed = extract(&dna, pattern, declared) == Err(Error::DnaLengthNotMatch);
                assert_eq!(failed, held != declared as usize);
            }
        }
    }
}

#[test]
fn extract_fails_on_a_malformed_pattern() {
    for pattern in [
        "0", "0:", ":1", "0:1:", "a:1", "0:b", "0:1,,1:1", "0:1,", ",0:1", "0:256", "256:0",
        "0:1:he-x", "0:1:hex:more", "0 :1", "0:1 ", "-1:1", "0:+1", "0:1;1:1", "0:1:h x",
        "0:1:\u{e9}",
    ] {
        assert_eq!(extract(&[1, 2, 3, 4], pattern, 4), Err(Error::DOBMetadataUnexpected), "{pattern}");
    }
}

#[test]
fn extract_fails_on_a_slice_outside_the_dna() {
    assert_eq!(extract(&[1, 2, 3, 4], "3:2", 4), Err(Error::DOBMetadataUnexpected));
    assert_eq!(extract(&[1, 2, 3, 4], "0:5", 4), Err(Error::DOBMetadataUnexpected));
    assert_eq!(extract(&[1, 2, 3, 4], "5:0", 4), Err(Error::DOBMetadataUnexpected));
    assert_eq!(extract(&[1, 2, 3, 4], "0:1,255:255", 4), Err(Error::DOBMetadataUnexpected));
}

#[test]
fn extract_takes_slices_up_to_the_end() {
    assert_eq!(extract(&[1, 2, 3, 4], "3:1", 4).unwrap().traits, vec![slice_of(None, &[4])]);
    assert_eq!(extract(&[1, 2, 3, 4], "4:0", 4).unwrap().traits, vec![slice_of(None, &[])]);
    assert_eq!(extract(&[1, 2, 3, 4], "0:4", 4).unwrap().traits, vec![slice_of(None, &[1, 2, 3, 4])]);
}

#[test]
fn extract_reads_numbers_with_leading_zeros() {
    assert_eq!(extract(&[1, 2, 3, 4], "000:001", 4).unwrap().traits, vec![slice_of(None, &[1])]);
    assert_eq!(
        extract(&[1, 2, 3, 4], "0000000000000000000001:02", 4).unwrap().traits,
        vec![slice_of(None, &[2, 3])]
    );
}

#[test]
fn extract_on_dna_of_255_bytes() {
    let dna: Vec<u8> = (0..255).collect();
    let traits = extract(&dna, "254:1,0:255:Raw_2", 255).unwrap();
    assert_eq!(traits.traits[0], slice_of(None, &[254]));
    assert_eq!(traits.traits[1], slice_of(Some("Raw_2"), &dna));
}

#[test]
fn extract_is_the_same_on_the_same_input() {
    let first = extract(&[9, 8, 7], "0:2:hex,2:1", 3);
    let second = extract(&[9, 8, 7], "0:2:hex,2:1", 3);
    assert_eq!(first, second);
}

#[test]
fn parse_pattern_lists_the_descriptors() {
    assert_eq!(
        parse_pattern("0:1,10:200:name_1"),
        Some(vec![
            TraitSlice { offset: 0, width: 1, transform: None },
            TraitSlice { offset: 10, width: 200, transform: Some("name_1".to_string()) },
        ])
    );
    assert_eq!(parse_pattern(""), Some(vec![]));
    assert_eq!(parse_pattern("255:255"), Some(vec![TraitSlice { offset: 255, width: 255, transform: None }]));
    assert_eq!(parse_pattern("0:1:"), None);
    assert_eq!(parse_pattern("1"), None);
    assert_eq!(parse_pattern("999:1"), None);
}

#[test]
fn pattern_fits_where_every_slice_lies_within() {
    assert!(fits("", 0));
    assert!(fits("0:4", 4));
    assert!(fits("1:3,0:1:hex", 4));
    assert!(!fits("1:4", 4));
    assert!(!fits("0:1", 0));
    assert!(!fits("nothing", 4));
}
