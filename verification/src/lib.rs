//! Decoding of digital-object (DOB) metadata.
//!
//! An object on the chain carries DNA and belongs to a cluster; the cluster
//! names a decoder and a pattern. To decode an object is to read both cells,
//! to check that they go together, to find the decoder's binary, to cut the
//! DNA by the pattern, to have the decoder run on the slices, and to hand
//! back what it rendered.
//!
//! This library holds every decision of that way and does no outside work.
//! [`orchestrator`] is the state machine of one request; it says what is to
//! be asked of the chain and of the runner, and takes their answers. Behind
//! it stand [`chain`] (the records of objects and clusters), [`locator`] and
//! [`cache`] (the decoder binaries), [`pattern`] (the cutting of DNA) and
//! [`sandbox`] (the runs of decoders). [`molecule`] and [`json`] read the
//! data of cells, [`hash`], [`hex`], [`text`] and [`bytes`] serve them, and
//! [`types`] and [`error`] hold the documents and the failures.

pub mod bytes;
pub mod cache;
pub mod chain;
pub mod error;
pub mod hash;
pub mod hex;
pub mod json;
pub mod locator;
pub mod molecule;
pub mod orchestrator;
pub mod pattern;
pub mod sandbox;
pub mod text;
pub mod types;

pub use crate::error::Error;
pub use crate::types::{
    ClusterDescriptionField, DOBClusterFormat, DOBDecoderFormat, DecoderLocationType,
    ServerDecodeResult, Settings, SporeContentField,
};
