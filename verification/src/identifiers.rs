//! Identifiers and block heights.

use vstd::prelude::*;

verus! {

/// The error raised when height arithmetic leaves the range of `u64`.
#[derive(Clone, Copy, Debug, PartialEq, Eq)]
pub enum ArithmeticError {
    Overflow,
}

/// The position of a block in its chain.
#[derive(Clone, Copy, Debug, PartialEq, Eq, Hash)]
pub struct BlockHeight(pub u64);

/// The name of one replicated chain.
#[derive(Clone, Copy, Debug, PartialEq, Eq, Hash)]
pub struct ChainId(pub u64);

/// A content hash.
#[derive(Clone, Copy, Debug, PartialEq, Eq, Hash)]
pub struct CryptoHash(pub u64);

/// The name of a content-addressed blob.
#[derive(Clone, Copy, Debug, PartialEq, Eq, Hash)]
pub struct BlobId(pub u64);

/// The verifying identity of a validator.
#[derive(Clone, Copy, Debug, PartialEq, Eq, Hash)]
pub struct ValidatorName(pub u64);

/// The identity of a chain owner.
#[derive(Clone, Copy, Debug, PartialEq, Eq, Hash)]
pub struct Owner(pub u64);

/// Where a published code object lives: the certificate that published it and
/// the index of the publishing operation.
#[derive(Clone, Copy, Debug, PartialEq, Eq, Hash)]
pub struct BytecodeLocation {
    pub certificate_hash: CryptoHash,
    pub operation_index: u32,
}

/// The name of a message: the chain and height of the block that sent it, and
/// its index among the messages of that block.
#[derive(Clone, Copy, Debug, PartialEq, Eq, Hash)]
pub struct MessageId {
    pub chain_id: ChainId,
    pub height: BlockHeight,
    pub index: u32,
}

} // verus!
