//! The closed set of failures of a decode request, each with its stable
//! numeric code and its message.

use jsonrpsee::types::ErrorCode;
use vstd::prelude::*;
use vstd::std_specs::convert::FromSpecImpl;

verus! {

/// Why a decode request ended without a result.
#[derive(Debug, Clone, Copy, PartialEq, Eq, Structural)]
pub enum Error {
    DnaLengthNotMatch,
    SporeIdLengthInvalid,
    NativeDecoderNotFound,
    SporeIdNotFound,
    SporeDataUncompatible,
    SporeDataContentTypeUncompatible,
    DOBVersionUnexpected,
    ClusterIdNotSet,
    ClusterIdNotFound,
    ClusterDataUncompatible,
    DecoderIdNotFound,
    DecoderOutputInvalid,
    HexedDNAParseError,
    HexedSporeIdParseError,
    DecoderBinaryPathInvalid,
    DecoderExecutionError,
    DecoderExecutionInternalError,
    FetchLiveCellsError,
    DOBContentUnexpected,
    DOBMetadataUnexpected,
}

/// The code of the first failure kind; the others follow it one by one, in
/// the order of their declaration.
pub const FIRST_ERROR_CODE: i32 = 1001;

impl Error {
    /// The place of this failure kind in the declaration, counted from 0.
    pub open spec fn ordinal(self) -> int {
        match self {
            Error::DnaLengthNotMatch => 0,
            Error::SporeIdLengthInvalid => 1,
            Error::NativeDecoderNotFound => 2,
            Error::SporeIdNotFound => 3,
            Error::SporeDataUncompatible => 4,
            Error::SporeDataContentTypeUncompatible => 5,
            Error::DOBVersionUnexpected => 6,
            Error::ClusterIdNotSet => 7,
            Error::ClusterIdNotFound => 8,
            Error::ClusterDataUncompatible => 9,
            Error::DecoderIdNotFound => 10,
            Error::DecoderOutputInvalid => 11,
            Error::HexedDNAParseError => 12,
            Error::HexedSporeIdParseError => 13,
            Error::DecoderBinaryPathInvalid => 14,
            Error::DecoderExecutionError => 15,
            Error::DecoderExecutionInternalError => 16,
            Error::FetchLiveCellsError => 17,
            Error::DOBContentUnexpected => 18,
            Error::DOBMetadataUnexpected => 19,
        }
    }

    /// The stable numeric code under which this failure is reported.
    pub open spec fn spec_code(self) -> int {
        FIRST_ERROR_CODE + self.ordinal()
    }

    /// The text that explains this failure to a caller.
    pub open spec fn spec_message(self) -> Seq<char> {
        match self {
            Error::DnaLengthNotMatch => "DNA bytes length not match the requirement in Cluster"@,
            Error::SporeIdLengthInvalid => "spore id length should equal to 32"@,
            Error::NativeDecoderNotFound => "natvie decoder not found"@,
            Error::SporeIdNotFound => "spore id not exist on-chain"@,
            Error::SporeDataUncompatible => "uncompatible spore data"@,
            Error::SporeDataContentTypeUncompatible => "uncompatible spore data content_type"@,
            Error::DOBVersionUnexpected => "unexpected DOB protocol version"@,
            Error::ClusterIdNotSet => "miss cluster id in spore data"@,
            Error::ClusterIdNotFound => "cluster id not exist on-chain"@,
            Error::ClusterDataUncompatible => "uncompatible cluster data"@,
            Error::DecoderIdNotFound => "decoder id not exist on-chain"@,
            Error::DecoderOutputInvalid => "output of decoder should contain at least one line"@,
            Error::HexedDNAParseError => "DNA string is not in hex format"@,
            Error::HexedSporeIdParseError => "spore id string is not in hex format"@,
            Error::DecoderBinaryPathInvalid => "invalid decoder path to persist"@,
            Error::DecoderExecutionError => "encounter error while executing DNA decoding"@,
            Error::DecoderExecutionInternalError => "decoding program triggered an error"@,
            Error::FetchLiveCellsError => "encounter error while searching live cells"@,
            Error::DOBContentUnexpected => "spore content cannot parse to DOB content"@,
            Error::DOBMetadataUnexpected => "cluster description cannot parse to DOB metadata"@,
        }
    }

    /// The stable numeric code under which this failure is reported.
    pub fn code(self) -> (code: i32)
        ensures
            code == self.spec_code(),
            1001 <= code <= 1020,
    {
        match self {
            Error::DnaLengthNotMatch => 1001,
            Error::SporeIdLengthInvalid => 1002,
            Error::NativeDecoderNotFound => 1003,
            Error::SporeIdNotFound => 1004,
            Error::SporeDataUncompatible => 1005,
            Error::SporeDataContentTypeUncompatible => 1006,
            Error::DOBVersionUnexpected => 1007,
            Error::ClusterIdNotSet => 1008,
            Error::ClusterIdNotFound => 1009,
            Error::ClusterDataUncompatible => 1010,
            Error::DecoderIdNotFound => 1011,
            Error::DecoderOutputInvalid => 1012,
            Error::HexedDNAParseError => 1013,
            Error::HexedSporeIdParseError => 1014,
            Error::DecoderBinaryPathInvalid => 1015,
            Error::DecoderExecutionError => 1016,
            Error::DecoderExecutionInternalError => 1017,
            Error::FetchLiveCellsError => 1018,
            Error::DOBContentUnexpected => 1019,
            Error::DOBMetadataUnexpected => 1020,
        }
    }

    /// The text that explains this failure to a caller.
    pub fn message(self) -> (text: String)
        ensures
            text@ == self.spec_message(),
    {
        match self {
            Error::DnaLengthNotMatch => "DNA bytes length not match the requirement in Cluster".to_owned(),
            Error::SporeIdLengthInvalid => "spore id length should equal to 32".to_owned(),
            Error::NativeDecoderNotFound => "natvie decoder not found".to_owned(),
            Error::SporeIdNotFound => "spore id not exist on-chain".to_owned(),
            Error::SporeDataUncompatible => "uncompatible spore data".to_owned(),
            Error::SporeDataContentTypeUncompatible => "uncompatible spore data content_type".to_owned(),
            Error::DOBVersionUnexpected => "unexpected DOB protocol version".to_owned(),
            Error::ClusterIdNotSet => "miss cluster id in spore data".to_owned(),
            Error::ClusterIdNotFound => "cluster id not exist on-chain".to_owned(),
            Error::ClusterDataUncompatible => "uncompatible cluster data".to_owned(),
            Error::DecoderIdNotFound => "decoder id not exist on-chain".to_owned(),
            Error::DecoderOutputInvalid => "output of decoder should contain at least one line".to_owned(),
            Error::HexedDNAParseError => "DNA string is not in hex format".to_owned(),
            Error::HexedSporeIdParseError => "spore id string is not in hex format".to_owned(),
            Error::DecoderBinaryPathInvalid => "invalid decoder path to persist".to_owned(),
            Error::DecoderExecutionError => "encounter error while executing DNA decoding".to_owned(),
            Error::DecoderExecutionInternalError => "decoding program triggered an error".to_owned(),
            Error::FetchLiveCellsError => "encounter error while searching live cells".to_owned(),
            Error::DOBContentUnexpected => "spore content cannot parse to DOB content".to_owned(),
            Error::DOBMetadataUnexpected => "cluster description cannot parse to DOB metadata".to_owned(),
        }
    }
}

/// `jsonrpsee::types::ErrorCode`, the code of a JSON-RPC error object.
#[verifier::external_type_specification]
#[verifier::external_body]
pub struct ExErrorCode(ErrorCode);

/// The integer that `jsonrpsee::types::ErrorCode::code` returns for `code`.
pub uninterp spec fn error_code_number(code: ErrorCode) -> i32;

/// Calls `<ErrorCode as From<i32>>::from`. That function maps each of the
/// integers that JSON-RPC reserves to its own variant and every other one to
/// `ServerError`, and `ErrorCode::code` maps each variant back to the integer
/// it was made from: the contract states that round trip.
#[verifier::external_body]
fn error_code_of_number(number: i32) -> (code: ErrorCode)
    ensures
        error_code_number(code) == number,
{
    ErrorCode::from(number)
}

impl From<Error> for ErrorCode {
    /// The JSON-RPC error code that carries the failure's numeric code.
    fn from(value: Error) -> (code: ErrorCode)
        ensures
            error_code_number(code) == value.spec_code(),
    {
        error_code_of_number(value.code())
    }
}

/// An `ErrorCode` cannot be written down in a contract, so the conversion has
/// no value of its own to name: what `from` returns is stated on `from`, over
/// the number of the code.
impl FromSpecImpl<Error> for ErrorCode {
    open spec fn obeys_from_spec() -> bool {
        false
    }

    open spec fn from_spec(value: Error) -> ErrorCode {
        arbitrary()
    }
}

} // verus!
