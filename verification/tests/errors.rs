use dob_decoder::error::Error;
use jsonrpsee::types::ErrorCode;

fn every_error() -> Vec<Error> {
    vec![
        Error::DnaLengthNotMatch,
        Error::SporeIdLengthInvalid,
        Error::NativeDecoderNotFound,
        Error::SporeIdNotFound,
        Error::SporeDataUncompatible,
        Error::SporeDataContentTypeUncompatible,
        Error::DOBVersionUnexpected,
        Error::ClusterIdNotSet,
        Error::ClusterIdNotFound,
        Error::ClusterDataUncompatible,
        Error::DecoderIdNotFound,
        Error::DecoderOutputInvalid,
        Error::HexedDNAParseError,
        Error::HexedSporeIdParseError,
        Error::DecoderBinaryPathInvalid,
        Error::DecoderExecutionError,
        Error::DecoderExecutionInternalError,
        Error::FetchLiveCellsError,
        Error::DOBContentUnexpected,
        Error::DOBMetadataUnexpected,
    ]
}

#[test]
fn codes_start_at_1001_and_follow_the_declaration() {
    let errors = every_error();
    assert_eq!(errors.len(), 20);
    for (place, error) in errors.iter().enumerate() {
        assert_eq!(error.code(), 1001 + place as i32);
    }
}

#[test]
fn codes_of_named_failures() {
    assert_eq!(Error::DnaLengthNotMatch.code(), 1001);
    assert_eq!(Error::ClusterIdNotSet.code(), 1008);
    assert_eq!(Error::ClusterDataUncompatible.code(), 1010);
    assert_eq!(Error::DecoderOutputInvalid.code(), 1012);
    assert_eq!(Error::DOBVersionUnexpected.code(), 1007);
    assert_eq!(Error::DOBMetadataUnexpected.code(), 1020);
}

#[test]
fn codes_are_distinct() {
    let errors = every_error();
    for a in 0..errors.len() {
        for b in 0..errors.len() {
            assert_eq!(errors[a].code() == errors[b].code(), a == b);
        }
    }
}

#[test]
fn messages_of_failures() {
    assert_eq!(
        Error::DnaLengthNotMatch.message(),
        "DNA bytes length not match the requirement in Cluster"
    );
    assert_eq!(Error::SporeIdLengthInvalid.message(), "spore id length should equal to 32");
    assert_eq!(Error::NativeDecoderNotFound.message(), "natvie decoder not found");
    assert_eq!(Error::SporeIdNotFound.message(), "spore id not exist on-chain");
    assert_eq!(Error::SporeDataUncompatible.message(), "uncompatible spore data");
    assert_eq!(
        Error::SporeDataContentTypeUncompatible.message(),
        "uncompatible spore data content_type"
    );
    assert_eq!(Error::DOBVersionUnexpected.message(), "unexpected DOB protocol version");
    assert_eq!(Error::ClusterIdNotSet.message(), "miss cluster id in spore data");
    assert_eq!(Error::ClusterIdNotFound.message(), "cluster id not exist on-chain");
    assert_eq!(Error::ClusterDataUncompatible.message(), "uncompatible cluster data");
    assert_eq!(Error::DecoderIdNotFound.message(), "decoder id not exist on-chain");
    assert_eq!(
        Error::DecoderOutputInvalid.message(),
        "output of decoder should contain at least one line"
    );
    assert_eq!(Error::HexedDNAParseError.message(), "DNA string is not in hex format");
    assert_eq!(Error::HexedSporeIdParseError.message(), "spore id string is not in hex format");
    assert_eq!(Error::DecoderBinaryPathInvalid.message(), "invalid decoder path to persist");
    assert_eq!(
        Error::DecoderExecutionError.message(),
        "encounter error while executing DNA decoding"
    );
    assert_eq!(
        Error::DecoderExecutionInternalError.message(),
        "decoding program triggered an error"
    );
    assert_eq!(
        Error::FetchLiveCellsError.message(),
        "encounter error while searching live cells"
    );
    assert_eq!(
        Error::DOBContentUnexpected.message(),
        "spore content cannot parse to DOB content"
    );
    assert_eq!(
        Error::DOBMetadataUnexpected.message(),
        "cluster description cannot parse to DOB metadata"
    );
}

#[test]
fn error_code_carries_the_numeric_code() {
    for error in every_error() {
        let code = ErrorCode::from(error);
        assert_eq!(code.code(), error.code());
        assert_eq!(code, ErrorCode::ServerError(error.code()));
    }
}

#[test]
fn error_code_through_into() {
    let code: ErrorCode = Error::FetchLiveCellsError.into();
    assert_eq!(code.code(), 1018);
}
