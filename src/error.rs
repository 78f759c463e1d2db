use vstd::prelude::*;

verus! {

/// Every way an operation of the bridge can be refused.
#[derive(Debug, Clone, Copy, PartialEq, Eq, Structural)]
pub enum UniversalNftError {
    ProgramNotInitialized,
    CrossChainPaused,
    CrossChainNotEnabled,
    NftLocked,
    InsufficientTokens,
    InvalidGateway,
    InvalidTssAuthority,
    InvalidNonce,
    InvalidRecipientAddress,
    UnsupportedChain,
    InvalidMint,
    InvalidTssSignature,
    ArithmeticOverflow,
    Unauthorized,
    InvalidMetadataUri,
    ComputeBudgetExceeded,
    /// The origin transaction hash of an inbound message is empty or longer than 64 bytes.
    InvalidOriginTxHash,
    /// The foreign original-owner bytes of an inbound message are empty or longer than 64 bytes.
    InvalidOriginalOwner,
    /// A record with the same identity key is already in the store.
    AlreadyExists,
}

} // verus!
