//! The identities that each operation acts with, as the host runtime hands
//! them over, and the notifications that operations emit.
use vstd::prelude::*;
use crate::state::Pubkey;

verus! {

/// Who sets the bridge up.
#[derive(Debug, Clone, Copy, PartialEq, Eq)]
pub struct Initialize {
    pub authority: Pubkey,
}

/// A mint of a new asset on the home chain.
#[derive(Debug, Clone, Copy, PartialEq, Eq)]
pub struct MintNft {
    /// The signer, who receives the minted unit.
    pub authority: Pubkey,
    /// The fresh mint of the asset.
    pub mint: Pubkey,
    /// The host clock's reading, in Unix seconds.
    pub timestamp: i64,
}

/// An outbound transfer of an asset.
#[derive(Debug, Clone, Copy, PartialEq, Eq)]
pub struct InitiateCrossChainTransfer {
    /// The signer, who must hold the asset's unit.
    pub owner: Pubkey,
    pub mint: Pubkey,
    pub timestamp: i64,
}

/// The processing of an inbound message relayed from another chain.
#[derive(Debug, Clone, Copy, PartialEq, Eq)]
pub struct ReceiveCrossChain {
    /// The relay that submits the message.
    pub authority: Pubkey,
    /// The fresh mint of the received asset.
    pub mint: Pubkey,
    /// The wallet that receives the asset.
    pub recipient: Pubkey,
    pub timestamp: i64,
}

/// A check that the signer holds an asset.
#[derive(Debug, Clone, Copy, PartialEq, Eq)]
pub struct VerifyOwnership {
    pub owner: Pubkey,
    pub timestamp: i64,
}

/// Outbound-transfer intent, for the relay to observe.
#[derive(Debug, Clone, PartialEq, Eq)]
pub struct CrossChainTransferEvent {
    pub mint: Pubkey,
    pub owner: Pubkey,
    pub destination_chain_id: u64,
    pub recipient_address: Vec<u8>,
    pub nonce: u64,
    pub timestamp: i64,
}

/// Notice of a processed inbound message.
#[derive(Debug, Clone, Copy, PartialEq, Eq)]
pub struct CrossChainReceiveEvent {
    pub mint: Pubkey,
    pub recipient: Pubkey,
    pub origin_chain_id: u64,
    pub nonce: u64,
    pub timestamp: i64,
}

/// Audit notice of a successful ownership check.
#[derive(Debug, Clone, Copy, PartialEq, Eq)]
pub struct OwnershipVerifiedEvent {
    pub mint: Pubkey,
    pub owner: Pubkey,
    pub cross_chain_enabled: bool,
    pub is_locked: bool,
    pub timestamp: i64,
}

} // verus!
