//! One decode request, from the identifier of an object to its rendered
//! result.
//!
//! A request is a state machine. Its states follow one another in one order:
//! start, resolve the object, resolve its cluster, validate that the two are
//! compatible, locate the decoder, extract the pattern, execute, assemble,
//! done. A step that fails ends the request in the state `Failed`; nothing is
//! tried again. The machine does no outside work itself: each state says what
//! is to be done for it, and the answer is handed to the next step.

use crate::bytes::same_bytes;
use crate::cache::{
    cache_path, contents_after_put, put_refused, DecoderArtifact, DecoderArtifactModel,
    DecoderCache,
};
use crate::chain::{
    cluster_resolved, object_resolved, resolve_cluster, resolve_object, CellLookup, ClusterRecord,
    ClusterRecordModel, ObjectRecord, ObjectRecordModel,
};
use crate::error::Error;
use crate::hash::{hash_bytes, object_id_of, parse_object_id};
use crate::hex::{decode_hex, encode_hex, hex_decoded, hex_encoded, is_hex_text};
use crate::json::{content_dna_of, read_content_dna};
use crate::locator::{
    contents_after_locate, locate, located, lookup_needed, needs_lookup, DecoderLookup,
};
use crate::pattern::{extract, extracted, fits, pattern_fits};
use crate::sandbox::{
    execute, rendered, run_request, run_request_of, RunOutcome, RunRequest, RunRequestModel,
};
use crate::types::{
    DecodeResultModel, ServerDecodeResult, Settings, SporeContentField, SporeContentModel,
};
use ckb_types::H256;
use vstd::prelude::*;
use vstd::utf8::encode_utf8;

verus! {

/// Where a request stands.
#[derive(Debug, Clone, Copy, PartialEq, Eq, Structural)]
pub enum Stage {
    Start,
    ResolveObject,
    ResolveCluster,
    ValidateCompatibility,
    LocateDecoder,
    ExtractPattern,
    Execute,
    Assemble,
    Done,
    Failed,
}

/// What has to be done outside for a request before its next step.
#[derive(Debug, Clone, PartialEq, Eq)]
pub enum Action {
    /// Nothing: the next step takes `Event::Proceed`.
    Proceed,
    /// Ask the chain for the live cell of this object; the next step takes
    /// its answer as `Event::Object`.
    FetchObject(H256),
    /// Ask the chain for the live cell of this cluster; the next step takes
    /// its answer as `Event::Cluster`.
    FetchCluster(H256),
    /// Ask the chain for the binary of this type identifier and write it to
    /// `path`; the next step takes the answer as `Event::Decoder`.
    FetchDecoder { hash: H256, path: String },
    /// Have the runner make this run; the next step takes its answer as
    /// `Event::Run`.
    RunDecoder(RunRequest),
    /// Nothing: the request has ended.
    Stop,
}

/// What was done outside for a request.
#[derive(Debug, Clone, PartialEq, Eq)]
pub enum Event {
    Proceed,
    Object(CellLookup),
    Cluster(CellLookup),
    Decoder(DecoderLookup),
    Run(RunOutcome),
}

/// A request, with what it has gathered so far.
#[derive(Debug, Clone, PartialEq, Eq)]
pub enum DecodeState {
    Start { hexed_id: String },
    ResolveObject { id: H256 },
    ResolveCluster { object: ObjectRecord, cluster_id: H256 },
    ValidateCompatibility { object: ObjectRecord, cluster: ClusterRecord },
    /// `store_at` is the path to which the decoder's binary is to be
    /// written, where the chain has to be asked for it.
    LocateDecoder {
        object: ObjectRecord,
        cluster: ClusterRecord,
        dna: Vec<u8>,
        store_at: Option<String>,
    },
    ExtractPattern {
        object: ObjectRecord,
        cluster: ClusterRecord,
        dna: Vec<u8>,
        artifact: DecoderArtifact,
    },
    Execute { object: ObjectRecord, dna: Vec<u8>, request: RunRequest },
    Assemble { object: ObjectRecord, dna: Vec<u8>, rendered: String },
    Done(ServerDecodeResult),
    Failed(Error),
}

/// What an `Action` stands for.
pub enum ActionModel {
    Proceed,
    FetchObject(Seq<u8>),
    FetchCluster(Seq<u8>),
    FetchDecoder { hash: Seq<u8>, path: Seq<char> },
    RunDecoder(RunRequestModel),
    Stop,
}

/// What a `DecodeState` stands for.
pub enum DecodeStateModel {
    Start { hexed_id: Seq<char> },
    ResolveObject { id: Seq<u8> },
    ResolveCluster { object: ObjectRecordModel, cluster_id: Seq<u8> },
    ValidateCompatibility { object: ObjectRecordModel, cluster: ClusterRecordModel },
    LocateDecoder {
        object: ObjectRecordModel,
        cluster: ClusterRecordModel,
        dna: Seq<u8>,
        store_at: Option<Seq<char>>,
    },
    ExtractPattern {
        object: ObjectRecordModel,
        cluster: ClusterRecordModel,
        dna: Seq<u8>,
        artifact: DecoderArtifactModel,
    },
    Execute { object: ObjectRecordModel, dna: Seq<u8>, request: RunRequestModel },
    Assemble { object: ObjectRecordModel, dna: Seq<u8>, rendered: Seq<char> },
    Done(DecodeResultModel),
    Failed(Error),
}

impl View for Action {
    type V = ActionModel;

    open spec fn view(&self) -> ActionModel {
        match *self {
            Action::Proceed => ActionModel::Proceed,
            Action::FetchObject(id) => ActionModel::FetchObject(hash_bytes(id)),
            Action::FetchCluster(id) => ActionModel::FetchCluster(hash_bytes(id)),
            Action::FetchDecoder { hash, path } => ActionModel::FetchDecoder {
                hash: hash_bytes(hash),
                path: path@,
            },
            Action::RunDecoder(request) => ActionModel::RunDecoder(request@),
            Action::Stop => ActionModel::Stop,
        }
    }
}

impl View for DecodeState {
    type V = DecodeStateModel;

    open spec fn view(&self) -> DecodeStateModel {
        match *self {
            DecodeState::Start { hexed_id } => DecodeStateModel::Start { hexed_id: hexed_id@ },
            DecodeState::ResolveObject { id } => DecodeStateModel::ResolveObject {
                id: hash_bytes(id),
            },
            DecodeState::ResolveCluster { object, cluster_id } => DecodeStateModel::ResolveCluster {
                object: object@,
                cluster_id: hash_bytes(cluster_id),
            },
            DecodeState::ValidateCompatibility {
                object,
                cluster,
            } => DecodeStateModel::ValidateCompatibility { object: object@, cluster: cluster@ },
            DecodeState::LocateDecoder {
                object,
                cluster,
                dna,
                store_at,
            } => DecodeStateModel::LocateDecoder {
                object: object@,
                cluster: cluster@,
                dna: dna@,
                store_at: match store_at {
                    Some(path) => Some(path@),
                    None => None,
                },
            },
            DecodeState::ExtractPattern {
                object,
                cluster,
                dna,
                artifact,
            } => DecodeStateModel::ExtractPattern {
                object: object@,
                cluster: cluster@,
                dna: dna@,
                artifact: artifact@,
            },
            DecodeState::Execute { object, dna, request } => DecodeStateModel::Execute {
                object: object@,
                dna: dna@,
                request: request@,
            },
            DecodeState::Assemble { object, dna, rendered } => DecodeStateModel::Assemble {
                object: object@,
                dna: dna@,
                rendered: rendered@,
            },
            DecodeState::Done(result) => DecodeStateModel::Done(result@),
            DecodeState::Failed(error) => DecodeStateModel::Failed(error),
        }
    }
}

/// The stage at which a request in `state` stands.
pub open spec fn stage_of(state: DecodeStateModel) -> Stage {
    match state {
        DecodeStateModel::Start { .. } => Stage::Start,
        DecodeStateModel::ResolveObject { .. } => Stage::ResolveObject,
        DecodeStateModel::ResolveCluster { .. } => Stage::ResolveCluster,
        DecodeStateModel::ValidateCompatibility { .. } => Stage::ValidateCompatibility,
        DecodeStateModel::LocateDecoder { .. } => Stage::LocateDecoder,
        DecodeStateModel::ExtractPattern { .. } => Stage::ExtractPattern,
        DecodeStateModel::Execute { .. } => Stage::Execute,
        DecodeStateModel::Assemble { .. } => Stage::Assemble,
        DecodeStateModel::Done(_) => Stage::Done,
        DecodeStateModel::Failed(_) => Stage::Failed,
    }
}

/// The place of a stage in the order of a request; `Failed` stands behind
/// all others.
pub open spec fn rank(stage: Stage) -> int {
    match stage {
        Stage::Start => 0,
        Stage::ResolveObject => 1,
        Stage::ResolveCluster => 2,
        Stage::ValidateCompatibility => 3,
        Stage::LocateDecoder => 4,
        Stage::ExtractPattern => 5,
        Stage::Execute => 6,
        Stage::Assemble => 7,
        Stage::Done => 8,
        Stage::Failed => 9,
    }
}

/// What has to be done outside for a request in `state`.
pub open spec fn pending_of(state: DecodeStateModel) -> ActionModel {
    match state {
        DecodeStateModel::Start { .. } => ActionModel::Proceed,
        DecodeStateModel::ResolveObject { id } => ActionModel::FetchObject(id),
        DecodeStateModel::ResolveCluster { cluster_id, .. } => ActionModel::FetchCluster(cluster_id),
        DecodeStateModel::ValidateCompatibility { .. } => ActionModel::Proceed,
        DecodeStateModel::LocateDecoder { cluster, store_at, .. } => match store_at {
            Some(path) => ActionModel::FetchDecoder {
                hash: cluster.description.dob.decoder.hash,
                path,
            },
            None => ActionModel::Proceed,
        },
        DecodeStateModel::ExtractPattern { .. } => ActionModel::Proceed,
        DecodeStateModel::Execute { request, .. } => ActionModel::RunDecoder(request),
        DecodeStateModel::Assemble { .. } => ActionModel::Proceed,
        DecodeStateModel::Done(_) => ActionModel::Stop,
        DecodeStateModel::Failed(_) => ActionModel::Stop,
    }
}

/// What `validate` answers: the DNA of the object, or the failure.
pub open spec fn validated(
    object: ObjectRecordModel,
    cluster: ClusterRecordModel,
    protocol_version: Seq<char>,
) -> Result<Seq<u8>, Error> {
    if object.version != encode_utf8(protocol_version) {
        Err(Error::DOBVersionUnexpected)
    } else if content_dna_of(object.content) is None {
        Err(Error::DOBContentUnexpected)
    } else if !is_hex_text(content_dna_of(object.content)->0) {
        Err(Error::HexedDNAParseError)
    } else if !pattern_fits(
        cluster.description.dob.pattern,
        cluster.description.dob.dna_bytes as int,
    ) {
        Err(Error::DOBMetadataUnexpected)
    } else {
        Ok(hex_decoded(content_dna_of(object.content)->0))
    }
}

/// The result of a request for `object`, whose DNA is `dna` and for which
/// the decoder wrote `rendered`.
pub open spec fn assembled(object: ObjectRecordModel, dna: Seq<u8>, rendered: Seq<char>) -> DecodeResultModel {
    DecodeResultModel {
        raw_render_result: rendered,
        dob_content: SporeContentModel {
            block_number: object.block_number,
            cell_id: object.cell_id,
            dna: hex_encoded(dna),
        },
    }
}

/// The answer of the chain that a step in the stage `LocateDecoder` goes
/// by: the one that the event brings, and that no binary was found where it
/// brings none.
pub open spec fn decoder_answer(event: Event) -> DecoderLookup {
    match event {
        Event::Decoder(lookup) => lookup,
        _ => DecoderLookup::NotFound,
    }
}

/// Whether `event` is the answer that a request in `state` waits for.
pub open spec fn answers(state: DecodeStateModel, event: Event) -> bool {
    match state {
        DecodeStateModel::ResolveObject { .. } => event is Object,
        DecodeStateModel::ResolveCluster { .. } => event is Cluster,
        DecodeStateModel::LocateDecoder { store_at, .. } => if store_at is Some {
            event is Decoder
        } else {
            event is Proceed
        },
        DecodeStateModel::Execute { .. } => event is Run,
        DecodeStateModel::Done(_) => false,
        DecodeStateModel::Failed(_) => false,
        _ => event is Proceed,
    }
}

/// The state that follows `state` on `event`. An event that is not the
/// answer that the request waits for leaves it as it is, and so does every
/// event once the request has ended.
pub open spec fn stepped(
    state: DecodeStateModel,
    event: Event,
    settings: Settings,
    contents: Map<Seq<u8>, Seq<u8>>,
    root: Seq<char>,
) -> DecodeStateModel {
    if !answers(state, event) {
        state
    } else {
        match state {
            DecodeStateModel::Start { hexed_id } => match object_id_of(hexed_id) {
                Ok(id) => DecodeStateModel::ResolveObject { id },
                Err(error) => DecodeStateModel::Failed(error),
            },
            DecodeStateModel::ResolveObject { id } => match object_resolved(
                id,
                event->Object_0,
                settings.avaliable_spore_code_hashes@,
            ) {
                Ok(object) => match object.cluster_id {
                    Some(cluster_id) => DecodeStateModel::ResolveCluster { object, cluster_id },
                    None => DecodeStateModel::Failed(Error::ClusterIdNotSet),
                },
                Err(error) => DecodeStateModel::Failed(error),
            },
            DecodeStateModel::ResolveCluster { object, cluster_id } => match cluster_resolved(
                cluster_id,
                event->Cluster_0,
                settings.avaliable_cluster_code_hashes@,
            ) {
                Ok(cluster) => DecodeStateModel::ValidateCompatibility { object, cluster },
                Err(error) => DecodeStateModel::Failed(error),
            },
            DecodeStateModel::ValidateCompatibility { object, cluster } => match validated(
                object,
                cluster,
                settings.protocol_version@,
            ) {
                Ok(dna) => DecodeStateModel::LocateDecoder {
                    object,
                    cluster,
                    dna,
                    store_at: if lookup_needed(cluster.description.dob.decoder, contents, root) {
                        Some(cache_path(root, cluster.description.dob.decoder.hash))
                    } else {
                        None
                    },
                },
                Err(error) => DecodeStateModel::Failed(error),
            },
            DecodeStateModel::LocateDecoder { object, cluster, dna, .. } => match located(
                cluster.description.dob.decoder,
                contents,
                root,
                decoder_answer(event),
            ) {
                Ok(artifact) => DecodeStateModel::ExtractPattern { object, cluster, dna, artifact },
                Err(error) => DecodeStateModel::Failed(error),
            },
            DecodeStateModel::ExtractPattern { object, cluster, dna, artifact } => match extracted(
                dna,
                cluster.description.dob.pattern,
                cluster.description.dob.dna_bytes,
            ) {
                Ok(traits) => DecodeStateModel::Execute {
                    object,
                    dna,
                    request: run_request_of(artifact, traits),
                },
                Err(error) => DecodeStateModel::Failed(error),
            },
            DecodeStateModel::Execute { object, dna, request } => match rendered(event->Run_0) {
                Ok(text) => DecodeStateModel::Assemble { object, dna, rendered: text },
                Err(error) => DecodeStateModel::Failed(error),
            },
            DecodeStateModel::Assemble { object, dna, rendered } => DecodeStateModel::Done(
                assembled(object, dna, rendered),
            ),
            DecodeStateModel::Done(_) => state,
            DecodeStateModel::Failed(_) => state,
        }
    }
}

/// What the cache holds after the step from `state` on `event`: a step in
/// the stage `LocateDecoder` adds the binary that the chain answered with,
/// and no other step changes the cache.
pub open spec fn contents_after_step(
    state: DecodeStateModel,
    event: Event,
    contents: Map<Seq<u8>, Seq<u8>>,
    root: Seq<char>,
) -> Map<Seq<u8>, Seq<u8>> {
    match state {
        DecodeStateModel::LocateDecoder { cluster, .. } => if answers(state, event) {
            contents_after_locate(
                cluster.description.dob.decoder,
                contents,
                root,
                decoder_answer(event),
            )
        } else {
            contents
        },
        _ => contents,
    }
}

/// Checks that an object and its cluster can be decoded under the protocol
/// version of the service, and hands out the DNA of the object.
///
/// An object that declares another version than `protocol_version` fails
/// with `DOBVersionUnexpected`. Content that is no document with the DNA
/// fails with `DOBContentUnexpected`, DNA that is no hexadecimal text with
/// `HexedDNAParseError`, and a cluster whose pattern does not list slices
/// within DNA of the length that it declares with `DOBMetadataUnexpected`.
pub fn validate(object: &ObjectRecord, cluster: &ClusterRecord, protocol_version: &str) -> (dna:
    Result<Vec<u8>, Error>)
    ensures
        match dna {
            Ok(dna) => validated(object@, cluster@, protocol_version@) == Ok::<Seq<u8>, Error>(
                dna@,
            ),
            Err(error) => validated(object@, cluster@, protocol_version@) == Err::<
                Seq<u8>,
                Error,
            >(error),
        },
{
    if !same_bytes(object.version.as_slice(), protocol_version.as_bytes()) {
        return Err(Error::DOBVersionUnexpected);
    }
    let text = match read_content_dna(object.content.as_slice()) {
        Ok(text) => text,
        Err(error) => {
            return Err(error);
        },
    };
    let dna = match decode_hex(text.as_str()) {
        Some(dna) => dna,
        None => {
            return Err(Error::HexedDNAParseError);
        },
    };
    if !fits(cluster.description.dob.pattern.as_str(), cluster.description.dob.dna_bytes) {
        return Err(Error::DOBMetadataUnexpected);
    }
    Ok(dna)
}

/// Makes the result of a request: what the decoder wrote, the place at which
/// the object was observed, and its DNA in lower-case hexadecimal.
pub fn assemble(object: &ObjectRecord, dna: &[u8], rendered: String) -> (result: ServerDecodeResult)
    ensures
        result@ == assembled(object@, dna@, rendered@),
{
    ServerDecodeResult {
        raw_render_result: rendered,
        dob_content: SporeContentField {
            block_number: object.block_number,
            cell_id: object.cell_id,
            dna: encode_hex(dna),
        },
    }
}

impl DecodeState {
    /// The request for the object whose identifier is the hexadecimal text
    /// `hexed_id`, before its first step.
    pub fn start(hexed_id: String) -> (state: DecodeState)
        ensures
            state@ == (DecodeStateModel::Start { hexed_id: hexed_id@ }),
    {
        DecodeState::Start { hexed_id }
    }

    /// The stage at which the request stands.
    pub fn stage(&self) -> (stage: Stage)
        ensures
            stage == stage_of(self@),
    {
        match self {
            DecodeState::Start { .. } => Stage::Start,
            DecodeState::ResolveObject { .. } => Stage::ResolveObject,
            DecodeState::ResolveCluster { .. } => Stage::ResolveCluster,
            DecodeState::ValidateCompatibility { .. } => Stage::ValidateCompatibility,
            DecodeState::LocateDecoder { .. } => Stage::LocateDecoder,
            DecodeState::ExtractPattern { .. } => Stage::ExtractPattern,
            DecodeState::Execute { .. } => Stage::Execute,
            DecodeState::Assemble { .. } => Stage::Assemble,
            DecodeState::Done(_) => Stage::Done,
            DecodeState::Failed(_) => Stage::Failed,
        }
    }

    /// What has to be done outside before the next step.
    pub fn pending(&self) -> (action: Action)
        ensures
            action@ == pending_of(self@),
    {
        match self {
            DecodeState::Start { .. } => Action::Proceed,
            DecodeState::ResolveObject { id } => Action::FetchObject(id.clone()),
            DecodeState::ResolveCluster { cluster_id, .. } => Action::FetchCluster(
                cluster_id.clone(),
            ),
            DecodeState::ValidateCompatibility { .. } => Action::Proceed,
            DecodeState::LocateDecoder { cluster, store_at, .. } => match store_at {
                Some(path) => Action::FetchDecoder {
                    hash: cluster.description.dob.decoder.hash.clone(),
                    path: path.clone(),
                },
                None => Action::Proceed,
            },
            DecodeState::ExtractPattern { .. } => Action::Proceed,
            DecodeState::Execute { request, .. } => Action::RunDecoder(request.copy()),
            DecodeState::Assemble { .. } => Action::Proceed,
            DecodeState::Done(_) => Action::Stop,
            DecodeState::Failed(_) => Action::Stop,
        }
    }

    /// Takes the request one step further, on what was done outside for it.
    ///
    /// Each step that succeeds leads to the next stage, and each failure to
    /// the state `Failed` with the error of the function that failed. An
    /// event that is not the answer that the request waits for leaves it as
    /// it is.
    pub fn step(self, event: Event, settings: &Settings, cache: &mut DecoderCache) -> (next:
        DecodeState)
        ensures
            next@ == stepped(self@, event, *settings, old(cache)@, old(cache).root()),
            final(cache).root() == old(cache).root(),
            final(cache)@ == contents_after_step(self@, event, old(cache)@, old(cache).root()),
    {
        match self {
            DecodeState::Start { hexed_id } => match event {
                Event::Proceed => match parse_object_id(hexed_id.as_str()) {
                    Ok(id) => DecodeState::ResolveObject { id },
                    Err(error) => DecodeState::Failed(error),
                },
                _ => DecodeState::Start { hexed_id },
            },
            DecodeState::ResolveObject { id } => match event {
                Event::Object(lookup) => match resolve_object(
                    &id,
                    lookup,
                    &settings.avaliable_spore_code_hashes,
                ) {
                    Ok(object) => match &object.cluster_id {
                        Some(cluster_id) => {
                            let cluster_id = cluster_id.clone();
                            DecodeState::ResolveCluster { object, cluster_id }
                        },
                        None => DecodeState::Failed(Error::ClusterIdNotSet),
                    },
                    Err(error) => DecodeState::Failed(error),
                },
                _ => DecodeState::ResolveObject { id },
            },
            DecodeState::ResolveCluster { object, cluster_id } => match event {
                Event::Cluster(lookup) => match resolve_cluster(
                    &cluster_id,
                    lookup,
                    &settings.avaliable_cluster_code_hashes,
                ) {
                    Ok(cluster) => DecodeState::ValidateCompatibility { object, cluster },
                    Err(error) => DecodeState::Failed(error),
                },
                _ => DecodeState::ResolveCluster { object, cluster_id },
            },
            DecodeState::ValidateCompatibility { object, cluster } => match event {
                Event::Proceed => match validate(
                    &object,
                    &cluster,
                    settings.protocol_version.as_str(),
                ) {
                    Ok(dna) => {
                        let store_at = if needs_lookup(&cluster.description.dob.decoder, cache) {
                            Some(cache.path_of(&cluster.description.dob.decoder.hash))
                        } else {
                            None
                        };
                        DecodeState::LocateDecoder { object, cluster, dna, store_at }
                    },
                    Err(error) => DecodeState::Failed(error),
                },
                _ => DecodeState::ValidateCompatibility { object, cluster },
            },
            DecodeState::LocateDecoder { object, cluster, dna, store_at } => {
                let lookup = match (&store_at, event) {
                    (Some(_), Event::Decoder(lookup)) => lookup,
                    (None, Event::Proceed) => DecoderLookup::NotFound,
                    _ => {
                        return DecodeState::LocateDecoder { object, cluster, dna, store_at };
                    },
                };
                match locate(&cluster.description.dob.decoder, cache, lookup) {
                    Ok(artifact) => DecodeState::ExtractPattern { object, cluster, dna, artifact },
                    Err(error) => DecodeState::Failed(error),
                }
            },
            DecodeState::ExtractPattern { object, cluster, dna, artifact } => match event {
                Event::Proceed => match extract(
                    dna.as_slice(),
                    cluster.description.dob.pattern.as_str(),
                    cluster.description.dob.dna_bytes,
                ) {
                    Ok(traits) => {
                        let request = run_request(&artifact, &traits);
                        DecodeState::Execute { object, dna, request }
                    },
                    Err(error) => DecodeState::Failed(error),
                },
                _ => DecodeState::ExtractPattern { object, cluster, dna, artifact },
            },
            DecodeState::Execute { object, dna, request } => match event {
                Event::Run(outcome) => match execute(outcome) {
                    Ok(rendered) => DecodeState::Assemble { object, dna, rendered },
                    Err(error) => DecodeState::Failed(error),
                },
                _ => DecodeState::Execute { object, dna, request },
            },
            DecodeState::Assemble { object, dna, rendered } => match event {
                Event::Proceed => DecodeState::Done(assemble(&object, dna.as_slice(), rendered)),
                _ => DecodeState::Assemble { object, dna, rendered },
            },
            DecodeState::Done(result) => DecodeState::Done(result),
            DecodeState::Failed(error) => DecodeState::Failed(error),
        }
    }
}

/// The decoding service: its settings, and the cache of decoder binaries
/// below the directory that the settings name. Every request of the service
/// is taken through its steps here.
pub struct Orchestrator {
    settings: Settings,
    cache: DecoderCache,
}

impl Orchestrator {
    /// The settings that the service was made with.
    pub closed spec fn settings(&self) -> Settings {
        self.settings
    }

    /// The decoder binaries that the service holds, each under the bytes of
    /// its hash.
    pub closed spec fn decoders(&self) -> Map<Seq<u8>, Seq<u8>> {
        self.cache@
    }

    /// The root directory of the cache of the service.
    pub closed spec fn root(&self) -> Seq<char> {
        self.cache.root()
    }

    /// A service with these settings, which holds no decoder yet.
    pub fn new(settings: Settings) -> (service: Orchestrator)
        ensures
            service.settings() == settings,
            service.root() == settings.decoders_cache_directory@,
            service.decoders() == Map::<Seq<u8>, Seq<u8>>::empty(),
    {
        let cache = DecoderCache::new(settings.decoders_cache_directory.clone());
        Orchestrator { settings, cache }
    }

    /// The version of the protocol that the service decodes.
    pub fn protocol_version(&self) -> (version: &String)
        ensures
            version@ == self.settings().protocol_version@,
    {
        &self.settings.protocol_version
    }

    /// The cache of the service.
    pub fn cache(&self) -> (cache: &DecoderCache)
        ensures
            cache@ == self.decoders(),
            cache.root() == self.root(),
    {
        &self.cache
    }

    /// Gives the service the binary of a decoder, as `DecoderCache::put`
    /// stores it.
    pub fn provide(&mut self, hash: &H256, bytes: Vec<u8>) -> (artifact: Result<
        DecoderArtifact,
        Error,
    >)
        ensures
            final(self).settings() == old(self).settings(),
            final(self).root() == old(self).root(),
            final(self).decoders() == contents_after_put(
                old(self).decoders(),
                old(self).root(),
                hash_bytes(*hash),
                bytes@,
            ),
            match artifact {
                Ok(artifact) => !put_refused(
                    old(self).decoders(),
                    old(self).root(),
                    hash_bytes(*hash),
                    bytes@,
                ) && artifact.bytes@ == bytes@ && artifact.path@ == cache_path(
                    old(self).root(),
                    hash_bytes(*hash),
                ),
                Err(error) => put_refused(
                    old(self).decoders(),
                    old(self).root(),
                    hash_bytes(*hash),
                    bytes@,
                ) && error == Error::DecoderBinaryPathInvalid,
            },
    {
        self.cache.put(hash, bytes)
    }

    /// The request for the object whose identifier is the hexadecimal text
    /// `hexed_id`, before its first step.
    pub fn begin(&self, hexed_id: String) -> (state: DecodeState)
        ensures
            state@ == (DecodeStateModel::Start { hexed_id: hexed_id@ }),
    {
        DecodeState::start(hexed_id)
    }

    /// Takes a request one step further, as `DecodeState::step` does, under
    /// the settings and with the cache of the service.
    pub fn step(&mut self, state: DecodeState, event: Event) -> (next: DecodeState)
        ensures
            next@ == stepped(
                state@,
                event,
                old(self).settings(),
                old(self).decoders(),
                old(self).root(),
            ),
            final(self).settings() == old(self).settings(),
            final(self).root() == old(self).root(),
            final(self).decoders() == contents_after_step(
                state@,
                event,
                old(self).decoders(),
                old(self).root(),
            ),
    {
        state.step(event, &self.settings, &mut self.cache)
    }
}

/// No step leads back: a step leaves the request where it stands, takes it
/// to the next stage, or ends it in `Failed`. A request that has ended stays
/// as it is.
pub proof fn lemma_step_order(
    state: DecodeStateModel,
    event: Event,
    settings: Settings,
    contents: Map<Seq<u8>, Seq<u8>>,
    root: Seq<char>,
)
    ensures
        ({
            let next = stepped(state, event, settings, contents, root);
            let from = rank(stage_of(state));
            let to = rank(stage_of(next));
            &&& next == state || to == from + 1 || stage_of(next) == Stage::Failed
            &&& (stage_of(state) == Stage::Done || stage_of(state) == Stage::Failed) ==> next
                == state
        }),
{
}

/// The runner is asked for nothing before the request has passed every check:
/// a request that waits for a run has reached the stage `Execute`, and a
/// request that failed waits for nothing.
pub proof fn lemma_run_only_in_execute(state: DecodeStateModel)
    ensures
        pending_of(state) is RunDecoder <==> stage_of(state) == Stage::Execute,
        stage_of(state) == Stage::Failed ==> pending_of(state) is Stop,
{
}

/// A decoder is run only on DNA that is as long as the cluster declares: on
/// any other DNA the request fails with `DnaLengthNotMatch` in the stage
/// `ExtractPattern`, which stands before `Execute`.
pub proof fn lemma_run_needs_declared_length(
    object: ObjectRecordModel,
    cluster: ClusterRecordModel,
    dna: Seq<u8>,
    artifact: DecoderArtifactModel,
    settings: Settings,
    contents: Map<Seq<u8>, Seq<u8>>,
    root: Seq<char>,
)
    ensures
        ({
            let state = DecodeStateModel::ExtractPattern { object, cluster, dna, artifact };
            let next = stepped(state, Event::Proceed, settings, contents, root);
            &&& dna.len() != cluster.description.dob.dna_bytes ==> next
                == DecodeStateModel::Failed(Error::DnaLengthNotMatch)
            &&& stage_of(next) == Stage::Execute ==> dna.len() == cluster.description.dob.dna_bytes
        }),
{
}

} // verus!
