//! The errors of the local node.

use vstd::prelude::*;
use vstd::std_specs::convert::FromSpecImpl;
use crate::identifiers::{ArithmeticError, BlobId, BlockHeight, BytecodeLocation, ChainId};

verus! {

/// Why the worker refused a proposal, a certificate or a query.
#[derive(Clone, Debug, PartialEq, Eq)]
pub enum WorkerError {
    /// The certificate needs code objects that the worker does not hold.
    ApplicationBytecodesNotFound(Vec<BytecodeLocation>),
    /// The certificate needs blobs that the worker does not hold.
    BlobsNotFound(Vec<BlobId>),
    /// The certificate needs both code objects and blobs that the worker does
    /// not hold.
    ApplicationBytecodesAndBlobsNotFound(Vec<BytecodeLocation>, Vec<BlobId>),
    /// Any other refusal, with the worker's own words.
    Other(String),
}

/// Why the storage failed.
#[derive(Clone, Debug, PartialEq, Eq)]
pub enum ViewError {
    /// The entry does not exist.
    NotFound(String),
    /// Any other failure.
    Other(String),
}

/// Error type for the operations on a local node.
#[derive(Clone, Debug, PartialEq, Eq)]
pub enum LocalNodeError {
    ArithmeticError(ArithmeticError),
    ViewError(ViewError),
    WorkerError(WorkerError),
    /// Every validator was tried and the chain is still short of the height.
    CannotDownloadCertificates { chain_id: ChainId, target_next_block_height: BlockHeight },
    CannotReadLocalBlob { chain_id: ChainId, blob_id: BlobId },
    InactiveChain(ChainId),
    InvalidChainInfoResponse,
}

impl From<ArithmeticError> for LocalNodeError {
    fn from(error: ArithmeticError) -> (converted: LocalNodeError) {
        LocalNodeError::ArithmeticError(error)
    }
}

impl FromSpecImpl<ArithmeticError> for LocalNodeError {
    open spec fn obeys_from_spec() -> bool {
        true
    }

    open spec fn from_spec(error: ArithmeticError) -> LocalNodeError {
        LocalNodeError::ArithmeticError(error)
    }
}

impl From<ViewError> for LocalNodeError {
    fn from(error: ViewError) -> (converted: LocalNodeError) {
        LocalNodeError::ViewError(error)
    }
}

impl FromSpecImpl<ViewError> for LocalNodeError {
    open spec fn obeys_from_spec() -> bool {
        true
    }

    open spec fn from_spec(error: ViewError) -> LocalNodeError {
        LocalNodeError::ViewError(error)
    }
}

impl From<WorkerError> for LocalNodeError {
    fn from(error: WorkerError) -> (converted: LocalNodeError) {
        LocalNodeError::WorkerError(error)
    }
}

impl FromSpecImpl<WorkerError> for LocalNodeError {
    open spec fn obeys_from_spec() -> bool {
        true
    }

    open spec fn from_spec(error: WorkerError) -> LocalNodeError {
        LocalNodeError::WorkerError(error)
    }
}

} // verus!
