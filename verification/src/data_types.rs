//! Certificates, chain snapshots, queries and replies, as the synchronization
//! rules read them.

use vstd::prelude::*;
use crate::identifiers::{
    BlobId, BlockHeight, ChainId, CryptoHash, MessageId, Owner,
};

verus! {

/// What a certificate endorses.
#[derive(Clone, Copy, Debug, PartialEq, Eq)]
pub enum CertificateKind {
    /// A block that is final.
    Confirmed,
    /// A block that was validated and may be locked, but is not yet final.
    Validated,
    /// A round that timed out; it carries no block.
    Timeout,
}

/// A quorum-endorsed value, reduced to what the synchronization rules read.
#[derive(Clone, Copy, Debug, PartialEq, Eq)]
pub struct Certificate {
    pub hash: CryptoHash,
    pub chain_id: ChainId,
    pub height: BlockHeight,
    pub kind: CertificateKind,
    /// The number of messages that the certified block sent.
    pub message_count: u32,
}

impl Certificate {
    pub open spec fn spec_is_confirmed(&self) -> bool {
        self.kind is Confirmed
    }

    pub open spec fn spec_is_validated(&self) -> bool {
        self.kind is Validated
    }

    /// A certificate holds a message when it certifies a block of the message's
    /// chain and height that sent more messages than the message's index.
    pub open spec fn spec_has_message(&self, message_id: &MessageId) -> bool {
        &&& !(self.kind is Timeout)
        &&& self.height == message_id.height
        &&& self.chain_id == message_id.chain_id
        &&& message_id.index < self.message_count
    }

    #[verifier::when_used_as_spec(spec_is_confirmed)]
    pub fn is_confirmed(&self) -> (confirmed: bool)
        ensures
            confirmed == self.spec_is_confirmed(),
    {
        match self.kind {
            CertificateKind::Confirmed => true,
            _ => false,
        }
    }

    #[verifier::when_used_as_spec(spec_is_validated)]
    pub fn is_validated(&self) -> (validated: bool)
        ensures
            validated == self.spec_is_validated(),
    {
        match self.kind {
            CertificateKind::Validated => true,
            _ => false,
        }
    }

    #[verifier::when_used_as_spec(spec_has_message)]
    pub fn has_message(&self, message_id: &MessageId) -> (found: bool)
        ensures
            found == self.spec_has_message(message_id),
    {
        let carries_block = match self.kind {
            CertificateKind::Timeout => false,
            _ => true,
        };
        carries_block && self.height.0 == message_id.height.0 && self.chain_id.0
            == message_id.chain_id.0 && message_id.index < self.message_count
    }
}

/// A content-addressed payload, keyed by the hash of the certificate that owns it.
#[derive(Clone, Copy, Debug, PartialEq, Eq)]
pub struct HashedCertificateValue {
    pub hash: CryptoHash,
}

/// Content-addressed data that certificates refer to.
#[derive(Clone, Copy, Debug, PartialEq, Eq)]
pub struct HashedBlob {
    pub id: BlobId,
}

/// A token that says that the state of a chain changed. The rules only collect
/// and forward it.
#[derive(Clone, Copy, Debug, PartialEq, Eq)]
pub struct Notification {
    pub chain_id: ChainId,
    pub token: u64,
}

/// A block that an owner proposed and that is not yet certified.
#[derive(Clone, Copy, Debug, PartialEq, Eq)]
pub struct BlockProposal {
    pub chain_id: ChainId,
    pub height: BlockHeight,
    pub owner: Owner,
}

/// What a node reports of the round in progress.
#[derive(Clone, Copy, Debug, PartialEq, Eq)]
pub struct ChainManagerInfo {
    pub requested_proposed: Option<BlockProposal>,
    pub requested_locked: Option<Certificate>,
}

/// A snapshot of a chain as one node reports it.
#[derive(Clone, Debug, PartialEq, Eq)]
pub struct ChainInfo {
    pub chain_id: ChainId,
    pub next_block_height: BlockHeight,
    pub requested_sent_certificates: Vec<Certificate>,
    pub requested_blob: Option<HashedBlob>,
    pub requested_hashed_certificate_value: Option<HashedCertificateValue>,
    pub manager: ChainManagerInfo,
}

/// A range of heights: from `start`, at most `limit` of them where a limit is set.
#[derive(Clone, Copy, Debug, PartialEq, Eq)]
pub struct BlockHeightRange {
    pub start: BlockHeight,
    pub limit: Option<u64>,
}

impl BlockHeightRange {
    /// The range that holds `start` alone.
    pub fn single(start: BlockHeight) -> (range: BlockHeightRange)
        ensures
            range == (BlockHeightRange { start, limit: Some(1u64) }),
    {
        BlockHeightRange { start, limit: Some(1) }
    }
}

/// What is asked of a node about one chain.
#[derive(Clone, Copy, Debug, PartialEq, Eq)]
pub struct ChainInfoQuery {
    pub chain_id: ChainId,
    pub request_sent_certificates_in_range: Option<BlockHeightRange>,
    pub request_manager_values: bool,
    pub request_blob: Option<BlobId>,
    pub request_hashed_certificate_value: Option<CryptoHash>,
}

impl ChainInfoQuery {
    /// The query that asks for nothing but the chain's snapshot.
    pub fn new(chain_id: ChainId) -> (query: ChainInfoQuery)
        ensures
            query == (ChainInfoQuery {
                chain_id,
                request_sent_certificates_in_range: None,
                request_manager_values: false,
                request_blob: None,
                request_hashed_certificate_value: None,
            }),
    {
        ChainInfoQuery {
            chain_id,
            request_sent_certificates_in_range: None,
            request_manager_values: false,
            request_blob: None,
            request_hashed_certificate_value: None,
        }
    }

    pub fn with_sent_certificates_in_range(self, range: BlockHeightRange) -> (query: ChainInfoQuery)
        ensures
            query == (ChainInfoQuery { request_sent_certificates_in_range: Some(range), ..self }),
    {
        ChainInfoQuery { request_sent_certificates_in_range: Some(range), ..self }
    }

    pub fn with_manager_values(self) -> (query: ChainInfoQuery)
        ensures
            query == (ChainInfoQuery { request_manager_values: true, ..self }),
    {
        ChainInfoQuery { request_manager_values: true, ..self }
    }

    pub fn with_blob(self, blob_id: BlobId) -> (query: ChainInfoQuery)
        ensures
            query == (ChainInfoQuery { request_blob: Some(blob_id), ..self }),
    {
        ChainInfoQuery { request_blob: Some(blob_id), ..self }
    }

    pub fn with_hashed_certificate_value(self, hash: CryptoHash) -> (query: ChainInfoQuery)
        ensures
            query == (ChainInfoQuery { request_hashed_certificate_value: Some(hash), ..self }),
    {
        ChainInfoQuery { request_hashed_certificate_value: Some(hash), ..self }
    }
}

/// What came back from one query to a validator.
#[derive(Clone, Debug, PartialEq, Eq)]
pub enum ValidatorReply {
    /// The call failed.
    Unreachable,
    /// The validator answered. `verified` says whether the answer's signature
    /// was checked with success against the validator's name.
    Answered { info: ChainInfo, verified: bool },
}

impl ValidatorReply {
    /// The snapshot that may be used: that of an answer whose signature was
    /// verified, and no other.
    pub open spec fn usable(self) -> Option<ChainInfo> {
        match self {
            ValidatorReply::Answered { info, verified } if verified => Some(info),
            _ => None,
        }
    }

    /// Hands out the snapshot of a verified answer. An answer that failed the
    /// check is dropped whole, whatever it holds.
    pub fn into_usable(self) -> (info: Option<ChainInfo>)
        ensures
            info == self.usable(),
    {
        match self {
            ValidatorReply::Answered { info, verified } => {
                if verified {
                    Some(info)
                } else {
                    None
                }
            },
            ValidatorReply::Unreachable => None,
        }
    }
}

} // verus!
