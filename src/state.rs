use vstd::prelude::*;

verus! {

/// A 32-byte account identity: a wallet, a mint, a gateway or a signer.
#[derive(Debug, Clone, Copy, PartialEq, Eq)]
pub struct Pubkey {
    pub bytes: [u8; 32],
}

impl Pubkey {
    pub fn new(bytes: [u8; 32]) -> (r: Pubkey)
        ensures
            r.bytes == bytes,
    {
        Pubkey { bytes }
    }

    /// Whether two identities are the same.
    pub fn same(&self, other: &Pubkey) -> (r: bool)
        ensures
            r == (*self == *other),
    {
        let mut i: usize = 0;
        while i < 32
            invariant
                0 <= i <= 32,
                forall|j: int| 0 <= j < i ==> self.bytes[j] == other.bytes[j],
            decreases 32 - i,
        {
            if self.bytes[i] != other.bytes[i] {
                return false;
            }
            i = i + 1;
        }
        proof {
            broadcast use vstd::array::axiom_array_ext_equal;
            assert(self.bytes@ =~= other.bytes@);
            assert(self.bytes == other.bytes);
        }
        true
    }
}

/// Program-wide summary record.
#[derive(Debug, Clone, Copy, PartialEq, Eq)]
pub struct ProgramState {
    pub authority: Pubkey,
    pub is_initialized: bool,
    pub total_nfts_minted: u64,
    pub cross_chain_transfers: u64,
}

/// The bridge configuration singleton.
#[derive(Debug, Clone, Copy, PartialEq, Eq)]
pub struct CrossChainConfig {
    pub gateway_address: Pubkey,
    pub tss_address: Pubkey,
    /// The home chain's identifier.
    pub chain_id: u64,
    pub is_paused: bool,
    /// High-water mark that an outbound nonce must exceed.
    pub nonce_counter: u64,
}

/// The per-asset registry entry.
#[derive(Debug, Clone, PartialEq, Eq)]
pub struct NftMetadata {
    pub mint: Pubkey,
    pub original_owner: Pubkey,
    pub current_owner: Pubkey,
    /// At most 200 bytes.
    pub metadata_uri: String,
    /// At most 32 bytes.
    pub name: String,
    /// At most 10 bytes.
    pub symbol: String,
    pub cross_chain_enabled: bool,
    pub is_locked: bool,
    pub origin_chain_id: u64,
    pub creation_timestamp: i64,
}

/// Lifecycle of an outbound transfer.
#[derive(Debug, Clone, Copy, PartialEq, Eq, Structural)]
pub enum TransferStatus {
    Pending,
    Completed,
    Failed,
}

/// An outbound transfer, keyed by `(mint, nonce)`.
#[derive(Debug, Clone, PartialEq, Eq)]
pub struct CrossChainTransfer {
    pub mint: Pubkey,
    pub original_owner: Pubkey,
    pub destination_chain_id: u64,
    /// Between 1 and 64 bytes.
    pub recipient_address: Vec<u8>,
    pub nonce: u64,
    pub timestamp: i64,
    pub status: TransferStatus,
}

/// A processed inbound message, keyed by `(origin_tx_hash, nonce)`.
#[derive(Debug, Clone, PartialEq, Eq)]
pub struct CrossChainReceipt {
    pub origin_chain_id: u64,
    /// Between 1 and 64 bytes.
    pub origin_tx_hash: Vec<u8>,
    pub mint: Pubkey,
    pub recipient: Pubkey,
    /// Between 1 and 64 bytes.
    pub original_owner: Vec<u8>,
    pub nonce: u64,
    pub timestamp: i64,
    /// Between 1 and 128 bytes.
    pub tss_signature: Vec<u8>,
}

/// The token holding of one asset: which wallet holds how many units of the mint.
#[derive(Debug, Clone, Copy, PartialEq, Eq)]
pub struct TokenAccount {
    pub mint: Pubkey,
    pub owner: Pubkey,
    pub amount: u64,
}

} // verus!
