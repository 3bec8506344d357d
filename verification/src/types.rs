//! The documents that the protocol reads and writes: what a cluster declares
//! about its objects, what an object's content holds, the settings of a
//! decoding service and the result it hands back.

pub use crate::error::Error;
use crate::hash::hash_bytes;
use ckb_types::H256;
use vstd::prelude::*;

verus! {

/// How the hash of a decoder reference is to be read.
#[derive(Debug, Clone, Copy, PartialEq, Eq, Structural)]
pub enum DecoderLocationType {
    /// The hash is a logical type identifier, resolved on chain.
    TypeId,
    /// The hash is the fixed hash of the decoder's code.
    CodeHash,
}

/// A reference to a decoder: the kind of the hash, and the hash.
#[derive(Debug, Clone, PartialEq, Eq)]
pub struct DOBDecoderFormat {
    pub location: DecoderLocationType,
    pub hash: H256,
}

/// What a `DOBDecoderFormat` stands for.
pub struct DecoderModel {
    pub location: DecoderLocationType,
    pub hash: Seq<u8>,
}

impl View for DOBDecoderFormat {
    type V = DecoderModel;

    open spec fn view(&self) -> DecoderModel {
        DecoderModel { location: self.location, hash: hash_bytes(self.hash) }
    }
}

/// What a cluster declares for the decoding of its objects.
#[derive(Debug, Clone, PartialEq, Eq)]
pub struct DOBClusterFormat {
    pub decoder: DOBDecoderFormat,
    pub pattern: String,
    pub dna_bytes: u8,
}

/// What a `DOBClusterFormat` stands for.
pub struct ClusterFormatModel {
    pub decoder: DecoderModel,
    pub pattern: Seq<char>,
    pub dna_bytes: u8,
}

impl View for DOBClusterFormat {
    type V = ClusterFormatModel;

    open spec fn view(&self) -> ClusterFormatModel {
        ClusterFormatModel {
            decoder: self.decoder@,
            pattern: self.pattern@,
            dna_bytes: self.dna_bytes,
        }
    }
}

/// The description of a cluster: free text, and the declaration for decoding.
#[derive(Debug, Clone, PartialEq, Eq)]
pub struct ClusterDescriptionField {
    pub description: String,
    pub dob: DOBClusterFormat,
}

/// What a `ClusterDescriptionField` stands for.
pub struct ClusterDescriptionModel {
    pub description: Seq<char>,
    pub dob: ClusterFormatModel,
}

impl View for ClusterDescriptionField {
    type V = ClusterDescriptionModel;

    open spec fn view(&self) -> ClusterDescriptionModel {
        ClusterDescriptionModel { description: self.description@, dob: self.dob@ }
    }
}

/// The content of an object: where it was observed, and its DNA in
/// hexadecimal text.
#[derive(Debug, Clone, PartialEq, Eq)]
pub struct SporeContentField {
    pub block_number: u64,
    pub cell_id: u64,
    pub dna: String,
}

/// What a `SporeContentField` stands for.
pub struct SporeContentModel {
    pub block_number: u64,
    pub cell_id: u64,
    pub dna: Seq<char>,
}

impl View for SporeContentField {
    type V = SporeContentModel;

    open spec fn view(&self) -> SporeContentModel {
        SporeContentModel { block_number: self.block_number, cell_id: self.cell_id, dna: self.dna@ }
    }
}

/// The settings of a decoding service.
#[derive(Debug, Clone, PartialEq, Eq)]
pub struct Settings {
    pub protocol_version: String,
    pub ckb_rpc: String,
    pub rpc_server_address: String,
    pub ckb_vm_runner: String,
    pub decoders_cache_directory: String,
    pub avaliable_spore_code_hashes: Vec<H256>,
    pub avaliable_cluster_code_hashes: Vec<H256>,
}

impl Default for Settings {
    /// Settings with every text empty and no code hash listed.
    fn default() -> (settings: Settings)
        ensures
            settings.protocol_version@.len() == 0,
            settings.ckb_rpc@.len() == 0,
            settings.rpc_server_address@.len() == 0,
            settings.ckb_vm_runner@.len() == 0,
            settings.decoders_cache_directory@.len() == 0,
            settings.avaliable_spore_code_hashes@.len() == 0,
            settings.avaliable_cluster_code_hashes@.len() == 0,
    {
        Settings {
            protocol_version: String::new(),
            ckb_rpc: String::new(),
            rpc_server_address: String::new(),
            ckb_vm_runner: String::new(),
            decoders_cache_directory: String::new(),
            avaliable_spore_code_hashes: Vec::new(),
            avaliable_cluster_code_hashes: Vec::new(),
        }
    }
}

/// The result of a decode request: what the decoder rendered, and the content
/// it was rendered from.
#[derive(Debug, Clone, PartialEq, Eq)]
pub struct ServerDecodeResult {
    pub raw_render_result: String,
    pub dob_content: SporeContentField,
}

/// What a `ServerDecodeResult` stands for.
pub struct DecodeResultModel {
    pub raw_render_result: Seq<char>,
    pub dob_content: SporeContentModel,
}

impl View for ServerDecodeResult {
    type V = DecodeResultModel;

    open spec fn view(&self) -> DecodeResultModel {
        DecodeResultModel {
            raw_render_result: self.raw_render_result@,
            dob_content: self.dob_content@,
        }
    }
}

} // verus!
