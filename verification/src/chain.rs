//! What the chain answers when it is asked for the cell of an object or of a
//! cluster, and the records that are made of the answers.

use crate::bytes::copy_range;
use crate::error::Error;
use crate::hash::{hash_bytes, hash_from_slice, hash_listed, lists_hash};
use crate::json::{cluster_description_of, read_cluster_description};
use crate::molecule::{cluster_data_of, read_cluster_data, read_spore_data, spore_data_of};
use crate::types::{ClusterDescriptionField, ClusterDescriptionModel};
use ckb_types::H256;
use vstd::prelude::*;

verus! {

/// A live cell as the chain hands it out: the code hash of its type, its
/// data, and the block and the place in it at which the cell was observed.
#[derive(Debug, Clone, PartialEq, Eq)]
pub struct LiveCell {
    pub code_hash: H256,
    pub data: Vec<u8>,
    pub block_number: u64,
    pub cell_id: u64,
}

/// The answer of the chain to the question for the live cell of an
/// identifier.
#[derive(Debug, Clone, PartialEq, Eq)]
pub enum CellLookup {
    /// The chain could not be asked, or did not answer.
    Failed,
    /// No live cell has the identifier.
    NotFound,
    /// The live cell of the identifier.
    Found(LiveCell),
}

/// An object as it was read from the chain.
#[derive(Debug, Clone, PartialEq, Eq)]
pub struct ObjectRecord {
    pub id: H256,
    /// The cluster that owns the object; `None` where what the object
    /// declares is not the identifier of a cluster.
    pub cluster_id: Option<H256>,
    pub content: Vec<u8>,
    /// The version of the protocol that the object declares.
    pub version: Vec<u8>,
    pub block_number: u64,
    pub cell_id: u64,
}

/// A cluster as it was read from the chain.
#[derive(Debug, Clone, PartialEq, Eq)]
pub struct ClusterRecord {
    pub id: H256,
    pub description: ClusterDescriptionField,
}

/// What an `ObjectRecord` stands for.
pub struct ObjectRecordModel {
    pub id: Seq<u8>,
    pub cluster_id: Option<Seq<u8>>,
    pub content: Seq<u8>,
    pub version: Seq<u8>,
    pub block_number: u64,
    pub cell_id: u64,
}

/// What a `ClusterRecord` stands for.
pub struct ClusterRecordModel {
    pub id: Seq<u8>,
    pub description: ClusterDescriptionModel,
}

/// The bytes of a hash that may be absent.
pub open spec fn optional_hash(hash: Option<H256>) -> Option<Seq<u8>> {
    match hash {
        Some(hash) => Some(hash_bytes(hash)),
        None => None,
    }
}

impl View for ObjectRecord {
    type V = ObjectRecordModel;

    open spec fn view(&self) -> ObjectRecordModel {
        ObjectRecordModel {
            id: hash_bytes(self.id),
            cluster_id: optional_hash(self.cluster_id),
            content: self.content@,
            version: self.version@,
            block_number: self.block_number,
            cell_id: self.cell_id,
        }
    }
}

impl View for ClusterRecord {
    type V = ClusterRecordModel;

    open spec fn view(&self) -> ClusterRecordModel {
        ClusterRecordModel { id: hash_bytes(self.id), description: self.description@ }
    }
}

/// The version of the protocol that the tag `content_type` declares: what
/// follows the media type of the protocol, `dob`, and a `/`. A tag of
/// another media type declares none.
pub open spec fn declared_version(content_type: Seq<u8>) -> Option<Seq<u8>> {
    if content_type.len() >= 4 && content_type[0] == 'd' as u8 && content_type[1] == 'o' as u8
        && content_type[2] == 'b' as u8 && content_type[3] == '/' as u8 {
        Some(content_type.skip(4))
    } else {
        None
    }
}

/// The cluster that an object declares with the bytes `declared`: the bytes,
/// where they are as many as an identifier has.
pub open spec fn cluster_declared(declared: Seq<u8>) -> Option<Seq<u8>> {
    if declared.len() == 32 {
        Some(declared)
    } else {
        None
    }
}

/// What `resolve_object` answers: the record of the object, or the failure.
pub open spec fn object_resolved(id: Seq<u8>, lookup: CellLookup, allowed: Seq<H256>) -> Result<
    ObjectRecordModel,
    Error,
> {
    match lookup {
        CellLookup::Failed => Err(Error::FetchLiveCellsError),
        CellLookup::NotFound => Err(Error::SporeIdNotFound),
        CellLookup::Found(cell) => if !lists_hash(allowed, hash_bytes(cell.code_hash)) {
            Err(Error::SporeIdNotFound)
        } else if spore_data_of(cell.data@) is None {
            Err(Error::SporeDataUncompatible)
        } else if declared_version(spore_data_of(cell.data@)->0.content_type) is None {
            Err(Error::SporeDataContentTypeUncompatible)
        } else if spore_data_of(cell.data@)->0.cluster_id is None {
            Err(Error::ClusterIdNotSet)
        } else {
            let data = spore_data_of(cell.data@)->0;
            Ok(
                ObjectRecordModel {
                    id,
                    cluster_id: cluster_declared(data.cluster_id->0),
                    content: data.content,
                    version: declared_version(data.content_type)->0,
                    block_number: cell.block_number,
                    cell_id: cell.cell_id,
                },
            )
        },
    }
}

/// What `resolve_cluster` answers: the record of the cluster, or the
/// failure.
pub open spec fn cluster_resolved(id: Seq<u8>, lookup: CellLookup, allowed: Seq<H256>) -> Result<
    ClusterRecordModel,
    Error,
> {
    match lookup {
        CellLookup::Failed => Err(Error::FetchLiveCellsError),
        CellLookup::NotFound => Err(Error::ClusterIdNotFound),
        CellLookup::Found(cell) => if !lists_hash(allowed, hash_bytes(cell.code_hash)) {
            Err(Error::ClusterIdNotFound)
        } else if cluster_data_of(cell.data@) is None {
            Err(Error::ClusterDataUncompatible)
        } else if cluster_description_of(cluster_data_of(cell.data@)->0.description) is None {
            Err(Error::ClusterDataUncompatible)
        } else {
            Ok(
                ClusterRecordModel {
                    id,
                    description: cluster_description_of(
                        cluster_data_of(cell.data@)->0.description,
                    )->0,
                },
            )
        },
    }
}

/// The version of the protocol that the tag `content_type` declares.
pub fn read_version(content_type: &[u8]) -> (version: Option<Vec<u8>>)
    ensures
        match version {
            Some(version) => declared_version(content_type@) == Some(version@),
            None => declared_version(content_type@) is None,
        },
{
    // 100, 111, 98 and 47 are the bytes of `dob/`.
    if content_type.len() >= 4 && content_type[0] == 100 && content_type[1] == 111
        && content_type[2] == 98 && content_type[3] == 47 {
        let version = copy_range(content_type, 4, content_type.len());
        assert(version@ =~= content_type@.skip(4));
        Some(version)
    } else {
        None
    }
}

/// Makes the record of the object `id` from the answer of the chain.
///
/// An answer that failed fails with `FetchLiveCellsError`. No live cell, or
/// one whose type is not on the list `allowed`, fails with
/// `SporeIdNotFound`. Data that is not laid out as the data of an object
/// fails with `SporeDataUncompatible`, a tag of the content's type that is
/// not of the protocol's media type with `SporeDataContentTypeUncompatible`,
/// and an object that declares no cluster with `ClusterIdNotSet`.
pub fn resolve_object(id: &H256, lookup: CellLookup, allowed: &Vec<H256>) -> (record: Result<
    ObjectRecord,
    Error,
>)
    ensures
        match record {
            Ok(record) => object_resolved(hash_bytes(*id), lookup, allowed@) == Ok::<
                ObjectRecordModel,
                Error,
            >(record@),
            Err(error) => object_resolved(hash_bytes(*id), lookup, allowed@) == Err::<
                ObjectRecordModel,
                Error,
            >(error),
        },
{
    let cell = match lookup {
        CellLookup::Failed => {
            return Err(Error::FetchLiveCellsError);
        },
        CellLookup::NotFound => {
            return Err(Error::SporeIdNotFound);
        },
        CellLookup::Found(cell) => cell,
    };
    if !hash_listed(allowed, &cell.code_hash) {
        return Err(Error::SporeIdNotFound);
    }
    let data = match read_spore_data(cell.data.as_slice()) {
        Some(data) => data,
        None => {
            return Err(Error::SporeDataUncompatible);
        },
    };
    let version = match read_version(data.content_type.as_slice()) {
        Some(version) => version,
        None => {
            return Err(Error::SporeDataContentTypeUncompatible);
        },
    };
    let cluster_id = match &data.cluster_id {
        Some(declared) => hash_from_slice(declared.as_slice()),
        None => {
            return Err(Error::ClusterIdNotSet);
        },
    };
    Ok(
        ObjectRecord {
            id: id.clone(),
            cluster_id,
            content: data.content,
            version,
            block_number: cell.block_number,
            cell_id: cell.cell_id,
        },
    )
}

/// Makes the record of the cluster `id` from the answer of the chain.
///
/// An answer that failed fails with `FetchLiveCellsError`. No live cell, or
/// one whose type is not on the list `allowed`, fails with
/// `ClusterIdNotFound`. Data that is not laid out as the data of a cluster,
/// or whose description is not the document of a cluster's description,
/// fails with `ClusterDataUncompatible`.
pub fn resolve_cluster(id: &H256, lookup: CellLookup, allowed: &Vec<H256>) -> (record: Result<
    ClusterRecord,
    Error,
>)
    ensures
        match record {
            Ok(record) => cluster_resolved(hash_bytes(*id), lookup, allowed@) == Ok::<
                ClusterRecordModel,
                Error,
            >(record@),
            Err(error) => cluster_resolved(hash_bytes(*id), lookup, allowed@) == Err::<
                ClusterRecordModel,
                Error,
            >(error),
        },
{
    let cell = match lookup {
        CellLookup::Failed => {
            return Err(Error::FetchLiveCellsError);
        },
        CellLookup::NotFound => {
            return Err(Error::ClusterIdNotFound);
        },
        CellLookup::Found(cell) => cell,
    };
    if !hash_listed(allowed, &cell.code_hash) {
        return Err(Error::ClusterIdNotFound);
    }
    let data = match read_cluster_data(cell.data.as_slice()) {
        Some(data) => data,
        None => {
            return Err(Error::ClusterDataUncompatible);
        },
    };
    match read_cluster_description(data.description.as_slice()) {
        Ok(description) => Ok(ClusterRecord { id: id.clone(), description }),
        Err(error) => Err(error),
    }
}

} // verus!
