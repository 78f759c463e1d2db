//! The bridge: configuration, asset registry, token holdings and the
//! outbound/inbound transfer state machine over the record store.
use vstd::prelude::*;
use vstd::slice::slice_to_vec;
use vstd::utf8::encode_utf8;
use crate::error::UniversalNftError;
use crate::instructions::{
    CrossChainReceiveEvent, CrossChainTransferEvent, Initialize, InitiateCrossChainTransfer,
    MintNft, OwnershipVerifiedEvent, ReceiveCrossChain, VerifyOwnership,
};
use crate::security::{build_receipt_message, receipt_message, tss_signature_accepted, verify_tss_signature};
use crate::state::{
    CrossChainConfig, CrossChainReceipt, CrossChainTransfer, NftMetadata, ProgramState, Pubkey,
    TokenAccount, TransferStatus,
};
use crate::store::{
    find_asset, find_receipt, find_token_account, find_transfer, keyed, lemma_keyed_push,
    lemma_keyed_update, lemma_unique_push, unique_keys,
};

verus! {

/// Longest metadata URI, in bytes.
pub const MAX_URI_LEN: usize = 200;

/// Longest display name, in bytes.
pub const MAX_NAME_LEN: usize = 32;

/// Longest symbol, in bytes.
pub const MAX_SYMBOL_LEN: usize = 10;

/// Longest recipient address, transaction hash or foreign owner, in bytes.
pub const MAX_ADDRESS_LEN: usize = 64;

/// Longest signature, in bytes.
pub const MAX_SIGNATURE_LEN: usize = 128;

/// Number of UTF-8 bytes of a string.
pub open spec fn byte_len(s: Seq<char>) -> nat {
    encode_utf8(s).len()
}

/// Whether URI, name and symbol are within their byte bounds.
pub open spec fn metadata_fits(metadata_uri: Seq<char>, name: Seq<char>, symbol: Seq<char>) -> bool {
    byte_len(metadata_uri) <= MAX_URI_LEN && byte_len(name) <= MAX_NAME_LEN && byte_len(symbol)
        <= MAX_SYMBOL_LEN
}

/// The registry entry of a freshly minted, unlocked asset.
pub open spec fn fresh_asset(
    mint: Pubkey,
    owner: Pubkey,
    metadata_uri: String,
    name: String,
    symbol: String,
    cross_chain_enabled: bool,
    origin_chain_id: u64,
    timestamp: i64,
) -> NftMetadata {
    NftMetadata {
        mint,
        original_owner: owner,
        current_owner: owner,
        metadata_uri,
        name,
        symbol,
        cross_chain_enabled,
        is_locked: false,
        origin_chain_id,
        creation_timestamp: timestamp,
    }
}

/// The registry entry `a` once locked for an outbound transfer by `owner`.
pub open spec fn locked_by(a: NftMetadata, owner: Pubkey) -> NftMetadata {
    NftMetadata { is_locked: true, current_owner: owner, ..a }
}

/// The single unit of a freshly minted asset, held by `owner`.
pub open spec fn single_unit(mint: Pubkey, owner: Pubkey) -> TokenAccount {
    TokenAccount { mint, owner, amount: 1 }
}

/// The whole state of one deployment of the bridge.
pub struct Bridge {
    program_state: ProgramState,
    config: CrossChainConfig,
    assets: Vec<NftMetadata>,
    token_accounts: Vec<TokenAccount>,
    transfers: Vec<CrossChainTransfer>,
    receipts: Vec<CrossChainReceipt>,
}

impl Bridge {
    /// The summary record.
    pub closed spec fn summary(&self) -> ProgramState {
        self.program_state
    }

    /// The configuration record.
    pub closed spec fn configuration(&self) -> CrossChainConfig {
        self.config
    }

    /// Asset records by mint.
    pub closed spec fn asset_map(&self) -> Map<Pubkey, NftMetadata> {
        keyed(self.assets@)
    }

    /// Token holdings by mint.
    pub closed spec fn token_map(&self) -> Map<Pubkey, TokenAccount> {
        keyed(self.token_accounts@)
    }

    /// Outbound transfer records by `(mint, nonce)`.
    pub closed spec fn transfer_map(&self) -> Map<(Pubkey, u64), CrossChainTransfer> {
        keyed(self.transfers@)
    }

    /// Inbound receipts by `(origin_tx_hash, nonce)`.
    pub closed spec fn receipt_map(&self) -> Map<(Seq<u8>, u64), CrossChainReceipt> {
        keyed(self.receipts@)
    }

    /// Every table maps each key to one record.
    pub closed spec fn well_formed(&self) -> bool {
        &&& unique_keys(self.assets@)
        &&& unique_keys(self.token_accounts@)
        &&& unique_keys(self.transfers@)
        &&& unique_keys(self.receipts@)
    }

    /// Units of `mint` that `owner` holds.
    pub open spec fn balance_of(&self, mint: Pubkey, owner: Pubkey) -> nat {
        if self.token_map().contains_key(mint) && self.token_map()[mint].owner == owner {
            self.token_map()[mint].amount as nat
        } else {
            0
        }
    }

    /// Whether a record of `mint` already stands in the registry or the token ledger.
    pub open spec fn mint_taken(&self, mint: Pubkey) -> bool {
        self.asset_map().contains_key(mint) || self.token_map().contains_key(mint)
    }

    /// The bridge before initialization: nothing recorded.
    pub fn new() -> (r: Bridge)
        ensures
            r.well_formed(),
            !r.summary().is_initialized,
            r.summary().total_nfts_minted == 0,
            r.summary().cross_chain_transfers == 0,
            r.asset_map().is_empty(),
            r.token_map().is_empty(),
            r.transfer_map().is_empty(),
            r.receipt_map().is_empty(),
    {
        let zero = Pubkey { bytes: [0u8; 32] };
        let r = Bridge {
            program_state: ProgramState {
                authority: zero,
                is_initialized: false,
                total_nfts_minted: 0,
                cross_chain_transfers: 0,
            },
            config: CrossChainConfig {
                gateway_address: zero,
                tss_address: zero,
                chain_id: 0,
                is_paused: false,
                nonce_counter: 0,
            },
            assets: Vec::new(),
            token_accounts: Vec::new(),
            transfers: Vec::new(),
            receipts: Vec::new(),
        };
        proof {
            assert(r.asset_map() =~= Map::empty());
            assert(r.token_map() =~= Map::empty());
            assert(r.transfer_map() =~= Map::empty());
            assert(r.receipt_map() =~= Map::empty());
        }
        r
    }

    /// Creates the configuration and the summary record, once.
    pub fn initialize(
        &mut self,
        ctx: &Initialize,
        gateway_address: Pubkey,
        tss_address: Pubkey,
        chain_id: u64,
    ) -> (r: Result<(), UniversalNftError>)
        requires
            old(self).well_formed(),
        ensures
            final(self).well_formed(),
            old(self).summary().is_initialized ==> r == Err::<(), UniversalNftError>(
                UniversalNftError::AlreadyExists,
            ) && *final(self) == *old(self),
            !old(self).summary().is_initialized ==> {
                &&& r == Ok::<(), UniversalNftError>(())
                &&& final(self).summary() == (ProgramState {
                    authority: ctx.authority,
                    is_initialized: true,
                    total_nfts_minted: 0,
                    cross_chain_transfers: 0,
                })
                &&& final(self).configuration() == (CrossChainConfig {
                    gateway_address,
                    tss_address,
                    chain_id,
                    is_paused: false,
                    nonce_counter: 0,
                })
                &&& final(self).asset_map() == old(self).asset_map()
                &&& final(self).token_map() == old(self).token_map()
                &&& final(self).transfer_map() == old(self).transfer_map()
                &&& final(self).receipt_map() == old(self).receipt_map()
            },
    {
        if self.program_state.is_initialized {
            return Err(UniversalNftError::AlreadyExists);
        }
        self.program_state = ProgramState {
            authority: ctx.authority,
            is_initialized: true,
            total_nfts_minted: 0,
            cross_chain_transfers: 0,
        };
        self.config = CrossChainConfig {
            gateway_address,
            tss_address,
            chain_id,
            is_paused: false,
            nonce_counter: 0,
        };
        Ok(())
    }

    /// Why minting `mint` with this metadata is refused, if it is.
    pub open spec fn mint_error(
        &self,
        mint: Pubkey,
        metadata_uri: Seq<char>,
        name: Seq<char>,
        symbol: Seq<char>,
    ) -> Option<UniversalNftError> {
        if !self.summary().is_initialized {
            Some(UniversalNftError::ProgramNotInitialized)
        } else if !metadata_fits(metadata_uri, name, symbol) {
            Some(UniversalNftError::InvalidMetadataUri)
        } else if self.mint_taken(mint) {
            Some(UniversalNftError::AlreadyExists)
        } else if self.summary().total_nfts_minted == u64::MAX {
            Some(UniversalNftError::ArithmeticOverflow)
        } else {
            None
        }
    }

    /// `next` is this bridge after `ctx.authority` minted `ctx.mint` with this metadata.
    pub open spec fn mint_step(
        &self,
        next: Bridge,
        ctx: MintNft,
        metadata_uri: String,
        name: String,
        symbol: String,
        cross_chain_enabled: bool,
    ) -> bool {
        &&& next.asset_map() == self.asset_map().insert(
            ctx.mint,
            fresh_asset(
                ctx.mint,
                ctx.authority,
                metadata_uri,
                name,
                symbol,
                cross_chain_enabled,
                self.configuration().chain_id,
                ctx.timestamp,
            ),
        )
        &&& next.token_map() == self.token_map().insert(ctx.mint, single_unit(ctx.mint, ctx.authority))
        &&& next.summary() == (ProgramState {
            total_nfts_minted: (self.summary().total_nfts_minted + 1) as u64,
            ..self.summary()
        })
        &&& next.configuration() == self.configuration()
        &&& next.transfer_map() == self.transfer_map()
        &&& next.receipt_map() == self.receipt_map()
    }

    /// Mints one unit of a new asset to the signer and records it, unlocked,
    /// with the home chain as its origin.
    pub fn mint_nft(
        &mut self,
        ctx: &MintNft,
        metadata_uri: String,
        name: String,
        symbol: String,
        cross_chain_enabled: bool,
    ) -> (r: Result<(), UniversalNftError>)
        requires
            old(self).well_formed(),
        ensures
            final(self).well_formed(),
            match old(self).mint_error(ctx.mint, metadata_uri@, name@, symbol@) {
                Some(e) => r == Err::<(), UniversalNftError>(e) && *final(self) == *old(self),
                None => r == Ok::<(), UniversalNftError>(()) && old(self).mint_step(
                    *final(self),
                    *ctx,
                    metadata_uri,
                    name,
                    symbol,
                    cross_chain_enabled,
                ),
            },
    {
        if !self.program_state.is_initialized {
            return Err(UniversalNftError::ProgramNotInitialized);
        }
        if metadata_uri.as_str().as_bytes().len() > MAX_URI_LEN
            || name.as_str().as_bytes().len() > MAX_NAME_LEN
            || symbol.as_str().as_bytes().len() > MAX_SYMBOL_LEN {
            return Err(UniversalNftError::InvalidMetadataUri);
        }
        if find_asset(&self.assets, &ctx.mint).is_some() || find_token_account(
            &self.token_accounts,
            &ctx.mint,
        ).is_some() {
            return Err(UniversalNftError::AlreadyExists);
        }
        if self.program_state.total_nfts_minted == u64::MAX {
            return Err(UniversalNftError::ArithmeticOverflow);
        }
        let asset = NftMetadata {
            mint: ctx.mint,
            original_owner: ctx.authority,
            current_owner: ctx.authority,
            metadata_uri,
            name,
            symbol,
            cross_chain_enabled,
            is_locked: false,
            origin_chain_id: self.config.chain_id,
            creation_timestamp: ctx.timestamp,
        };
        self.record_new_asset(asset, ctx.authority);
        Ok(())
    }

    /// Adds a new asset with its single unit held by `holder`, and counts it.
    fn record_new_asset(&mut self, asset: NftMetadata, holder: Pubkey)
        requires
            old(self).well_formed(),
            !old(self).mint_taken(asset.mint),
            old(self).summary().total_nfts_minted < u64::MAX,
        ensures
            final(self).well_formed(),
            final(self).asset_map() == old(self).asset_map().insert(asset.mint, asset),
            final(self).token_map() == old(self).token_map().insert(
                asset.mint,
                single_unit(asset.mint, holder),
            ),
            final(self).summary() == (ProgramState {
                total_nfts_minted: (old(self).summary().total_nfts_minted + 1) as u64,
                ..old(self).summary()
            }),
            final(self).configuration() == old(self).configuration(),
            final(self).transfer_map() == old(self).transfer_map(),
            final(self).receipt_map() == old(self).receipt_map(),
    {
        let unit = TokenAccount { mint: asset.mint, owner: holder, amount: 1 };
        proof {
            lemma_unique_push(self.assets@, asset);
            lemma_keyed_push(self.assets@, asset);
            lemma_unique_push(self.token_accounts@, unit);
            lemma_keyed_push(self.token_accounts@, unit);
        }
        self.assets.push(asset);
        self.token_accounts.push(unit);
        self.program_state.total_nfts_minted = self.program_state.total_nfts_minted + 1;
    }

    /// Units of `mint` that `owner` holds.
    pub fn token_balance(&self, mint: &Pubkey, owner: &Pubkey) -> (r: u64)
        requires
            self.well_formed(),
        ensures
            r as nat == self.balance_of(*mint, *owner),
    {
        match find_token_account(&self.token_accounts, mint) {
            Some(i) => {
                if self.token_accounts[i].owner.same(owner) {
                    self.token_accounts[i].amount
                } else {
                    0
                }
            },
            None => 0,
        }
    }

    /// Why an outbound transfer of `mint` by `owner` is refused, if it is.
    pub open spec fn transfer_error(
        &self,
        owner: Pubkey,
        mint: Pubkey,
        destination_chain_id: u64,
        recipient_address: Seq<u8>,
        nonce: u64,
    ) -> Option<UniversalNftError> {
        if !self.summary().is_initialized {
            Some(UniversalNftError::ProgramNotInitialized)
        } else if self.configuration().is_paused {
            Some(UniversalNftError::CrossChainPaused)
        } else if !self.asset_map().contains_key(mint) {
            Some(UniversalNftError::InvalidMint)
        } else if !self.asset_map()[mint].cross_chain_enabled {
            Some(UniversalNftError::CrossChainNotEnabled)
        } else if self.asset_map()[mint].is_locked {
            Some(UniversalNftError::NftLocked)
        } else if self.balance_of(mint, owner) == 0 {
            Some(UniversalNftError::InsufficientTokens)
        } else if nonce <= self.configuration().nonce_counter {
            Some(UniversalNftError::InvalidNonce)
        } else if recipient_address.len() == 0 || recipient_address.len() > MAX_ADDRESS_LEN {
            Some(UniversalNftError::InvalidRecipientAddress)
        } else if destination_chain_id == 0 || destination_chain_id
            == self.configuration().chain_id {
            Some(UniversalNftError::UnsupportedChain)
        } else if self.transfer_map().contains_key((mint, nonce)) {
            Some(UniversalNftError::AlreadyExists)
        } else if self.summary().cross_chain_transfers == u64::MAX {
            Some(UniversalNftError::ArithmeticOverflow)
        } else {
            None
        }
    }

    /// `next` is this bridge after `ctx.owner` started the transfer of `ctx.mint`
    /// under `nonce`.
    pub open spec fn transfer_step(
        &self,
        next: Bridge,
        ctx: InitiateCrossChainTransfer,
        destination_chain_id: u64,
        recipient_address: Vec<u8>,
        nonce: u64,
    ) -> bool {
        &&& next.asset_map() == self.asset_map().insert(
            ctx.mint,
            locked_by(self.asset_map()[ctx.mint], ctx.owner),
        )
        &&& next.transfer_map() == self.transfer_map().insert(
            (ctx.mint, nonce),
            CrossChainTransfer {
                mint: ctx.mint,
                original_owner: ctx.owner,
                destination_chain_id,
                recipient_address,
                nonce,
                timestamp: ctx.timestamp,
                status: TransferStatus::Pending,
            },
        )
        &&& next.summary() == (ProgramState {
            cross_chain_transfers: (self.summary().cross_chain_transfers + 1) as u64,
            ..self.summary()
        })
        &&& next.configuration() == self.configuration()
        &&& next.token_map() == self.token_map()
        &&& next.receipt_map() == self.receipt_map()
    }

    /// Locks an asset for a transfer to another chain, records the transfer
    /// as pending under `(mint, nonce)` and returns the intent for the relay.
    /// The nonce counter is only read: uniqueness of `(mint, nonce)` in the
    /// store is what refuses a replayed transfer.
    pub fn cross_chain_transfer(
        &mut self,
        ctx: &InitiateCrossChainTransfer,
        destination_chain_id: u64,
        recipient_address: Vec<u8>,
        nonce: u64,
    ) -> (r: Result<CrossChainTransferEvent, UniversalNftError>)
        requires
            old(self).well_formed(),
        ensures
            final(self).well_formed(),
            match old(self).transfer_error(
                ctx.owner,
                ctx.mint,
                destination_chain_id,
                recipient_address@,
                nonce,
            ) {
                Some(e) => r == Err::<CrossChainTransferEvent, UniversalNftError>(e) && *final(self)
                    == *old(self),
                None => r matches Ok(ev) && ev.mint == ctx.mint && ev.owner == ctx.owner
                    && ev.destination_chain_id == destination_chain_id && ev.recipient_address@
                    == recipient_address@ && ev.nonce == nonce && ev.timestamp == ctx.timestamp
                    && old(self).transfer_step(
                    *final(self),
                    *ctx,
                    destination_chain_id,
                    recipient_address,
                    nonce,
                ),
            },
    {
        if !self.program_state.is_initialized {
            return Err(UniversalNftError::ProgramNotInitialized);
        }
        if self.config.is_paused {
            return Err(UniversalNftError::CrossChainPaused);
        }
        let idx = match find_asset(&self.assets, &ctx.mint) {
            Some(i) => i,
            None => {
                return Err(UniversalNftError::InvalidMint);
            },
        };
        if !self.assets[idx].cross_chain_enabled {
            return Err(UniversalNftError::CrossChainNotEnabled);
        }
        if self.assets[idx].is_locked {
            return Err(UniversalNftError::NftLocked);
        }
        if self.token_balance(&ctx.mint, &ctx.owner) == 0 {
            return Err(UniversalNftError::InsufficientTokens);
        }
        if nonce <= self.config.nonce_counter {
            return Err(UniversalNftError::InvalidNonce);
        }
        if recipient_address.len() == 0 || recipient_address.len() > MAX_ADDRESS_LEN {
            return Err(UniversalNftError::InvalidRecipientAddress);
        }
        if destination_chain_id == 0 || destination_chain_id == self.config.chain_id {
            return Err(UniversalNftError::UnsupportedChain);
        }
        if find_transfer(&self.transfers, &ctx.mint, nonce).is_some() {
            return Err(UniversalNftError::AlreadyExists);
        }
        if self.program_state.cross_chain_transfers == u64::MAX {
            return Err(UniversalNftError::ArithmeticOverflow);
        }
        let ghost old_assets = self.assets@;
        self.assets[idx].is_locked = true;
        self.assets[idx].current_owner = ctx.owner;
        proof {
            let locked = locked_by(old_assets[idx as int], ctx.owner);
            assert(self.assets@ =~= old_assets.update(idx as int, locked));
            lemma_keyed_update(old_assets, idx as int, locked);
        }
        let event = CrossChainTransferEvent {
            mint: ctx.mint,
            owner: ctx.owner,
            destination_chain_id,
            recipient_address: slice_to_vec(recipient_address.as_slice()),
            nonce,
            timestamp: ctx.timestamp,
        };
        let record = CrossChainTransfer {
            mint: ctx.mint,
            original_owner: ctx.owner,
            destination_chain_id,
            recipient_address,
            nonce,
            timestamp: ctx.timestamp,
            status: TransferStatus::Pending,
        };
        proof {
            lemma_unique_push(self.transfers@, record);
            lemma_keyed_push(self.transfers@, record);
        }
        self.transfers.push(record);
        self.program_state.cross_chain_transfers = self.program_state.cross_chain_transfers + 1;
        Ok(event)
    }

    /// Why an inbound message is refused, if it is.
    pub open spec fn receive_error(
        &self,
        mint: Pubkey,
        origin_chain_id: u64,
        origin_tx_hash: Seq<u8>,
        metadata_uri: Seq<char>,
        name: Seq<char>,
        symbol: Seq<char>,
        original_owner: Seq<u8>,
        tss_signature: Seq<u8>,
        nonce: u64,
    ) -> Option<UniversalNftError> {
        if !self.summary().is_initialized {
            Some(UniversalNftError::ProgramNotInitialized)
        } else if self.configuration().is_paused {
            Some(UniversalNftError::CrossChainPaused)
        } else if !metadata_fits(metadata_uri, name, symbol) {
            Some(UniversalNftError::InvalidMetadataUri)
        } else if origin_tx_hash.len() == 0 || origin_tx_hash.len() > MAX_ADDRESS_LEN {
            Some(UniversalNftError::InvalidOriginTxHash)
        } else if original_owner.len() == 0 || original_owner.len() > MAX_ADDRESS_LEN {
            Some(UniversalNftError::InvalidOriginalOwner)
        } else if tss_signature.len() == 0 || tss_signature.len() > MAX_SIGNATURE_LEN {
            Some(UniversalNftError::InvalidTssSignature)
        } else if !tss_signature_accepted(
            receipt_message(
                origin_chain_id,
                origin_tx_hash,
                metadata_uri,
                name,
                symbol,
                original_owner,
                nonce,
            ),
            tss_signature,
            self.configuration().tss_address,
        ) {
            Some(UniversalNftError::InvalidTssSignature)
        } else if self.mint_taken(mint) {
            Some(UniversalNftError::AlreadyExists)
        } else if self.receipt_map().contains_key((origin_tx_hash, nonce)) {
            Some(UniversalNftError::AlreadyExists)
        } else if self.summary().total_nfts_minted == u64::MAX {
            Some(UniversalNftError::ArithmeticOverflow)
        } else {
            None
        }
    }

    /// `next` is this bridge after it processed the inbound message, minting
    /// `ctx.mint` to `ctx.recipient`.
    pub open spec fn receive_step(
        &self,
        next: Bridge,
        ctx: ReceiveCrossChain,
        origin_chain_id: u64,
        origin_tx_hash: Vec<u8>,
        metadata_uri: String,
        name: String,
        symbol: String,
        original_owner: Vec<u8>,
        tss_signature: Vec<u8>,
        nonce: u64,
    ) -> bool {
        &&& next.asset_map() == self.asset_map().insert(
            ctx.mint,
            fresh_asset(
                ctx.mint,
                ctx.recipient,
                metadata_uri,
                name,
                symbol,
                true,
                origin_chain_id,
                ctx.timestamp,
            ),
        )
        &&& next.token_map() == self.token_map().insert(ctx.mint, single_unit(ctx.mint, ctx.recipient))
        &&& next.receipt_map() == self.receipt_map().insert(
            (origin_tx_hash@, nonce),
            CrossChainReceipt {
                origin_chain_id,
                origin_tx_hash,
                mint: ctx.mint,
                recipient: ctx.recipient,
                original_owner,
                nonce,
                timestamp: ctx.timestamp,
                tss_signature,
            },
        )
        &&& next.summary() == (ProgramState {
            total_nfts_minted: (self.summary().total_nfts_minted + 1) as u64,
            ..self.summary()
        })
        &&& next.configuration() == self.configuration()
        &&& next.transfer_map() == self.transfer_map()
    }

    /// Processes a message relayed from another chain: checks the trusted
    /// signer's endorsement, mints the asset to the recipient with the origin
    /// chain as provenance, and records the receipt under
    /// `(origin_tx_hash, nonce)`, which refuses any replay of the message.
    pub fn receive_cross_chain(
        &mut self,
        ctx: &ReceiveCrossChain,
        origin_chain_id: u64,
        origin_tx_hash: Vec<u8>,
        metadata_uri: String,
        name: String,
        symbol: String,
        original_owner: Vec<u8>,
        tss_signature: Vec<u8>,
        nonce: u64,
    ) -> (r: Result<CrossChainReceiveEvent, UniversalNftError>)
        requires
            old(self).well_formed(),
        ensures
            final(self).well_formed(),
            match old(self).receive_error(
                ctx.mint,
                origin_chain_id,
                origin_tx_hash@,
                metadata_uri@,
                name@,
                symbol@,
                original_owner@,
                tss_signature@,
                nonce,
            ) {
                Some(e) => r == Err::<CrossChainReceiveEvent, UniversalNftError>(e) && *final(self)
                    == *old(self),
                None => r == Ok::<CrossChainReceiveEvent, UniversalNftError>(
                    CrossChainReceiveEvent {
                        mint: ctx.mint,
                        recipient: ctx.recipient,
                        origin_chain_id,
                        nonce,
                        timestamp: ctx.timestamp,
                    },
                ) && old(self).receive_step(
                    *final(self),
                    *ctx,
                    origin_chain_id,
                    origin_tx_hash,
                    metadata_uri,
                    name,
                    symbol,
                    original_owner,
                    tss_signature,
                    nonce,
                ),
            },
    {
        if !self.program_state.is_initialized {
            return Err(UniversalNftError::ProgramNotInitialized);
        }
        if self.config.is_paused {
            return Err(UniversalNftError::CrossChainPaused);
        }
        if metadata_uri.as_str().as_bytes().len() > MAX_URI_LEN
            || name.as_str().as_bytes().len() > MAX_NAME_LEN
            || symbol.as_str().as_bytes().len() > MAX_SYMBOL_LEN {
            return Err(UniversalNftError::InvalidMetadataUri);
        }
        if origin_tx_hash.len() == 0 || origin_tx_hash.len() > MAX_ADDRESS_LEN {
            return Err(UniversalNftError::InvalidOriginTxHash);
        }
        if original_owner.len() == 0 || original_owner.len() > MAX_ADDRESS_LEN {
            return Err(UniversalNftError::InvalidOriginalOwner);
        }
        if tss_signature.len() == 0 || tss_signature.len() > MAX_SIGNATURE_LEN {
            return Err(UniversalNftError::InvalidTssSignature);
        }
        let message = build_receipt_message(
            origin_chain_id,
            &origin_tx_hash,
            metadata_uri.as_str(),
            name.as_str(),
            symbol.as_str(),
            &original_owner,
            nonce,
        );
        match verify_tss_signature(message.as_slice(), tss_signature.as_slice(), &self.config.tss_address) {
            Ok(true) => {},
            _ => {
                return Err(UniversalNftError::InvalidTssSignature);
            },
        }
        if find_asset(&self.assets, &ctx.mint).is_some() || find_token_account(
            &self.token_accounts,
            &ctx.mint,
        ).is_some() {
            return Err(UniversalNftError::AlreadyExists);
        }
        if find_receipt(&self.receipts, &origin_tx_hash, nonce).is_some() {
            return Err(UniversalNftError::AlreadyExists);
        }
        if self.program_state.total_nfts_minted == u64::MAX {
            return Err(UniversalNftError::ArithmeticOverflow);
        }
        let asset = NftMetadata {
            mint: ctx.mint,
            original_owner: ctx.recipient,
            current_owner: ctx.recipient,
            metadata_uri,
            name,
            symbol,
            cross_chain_enabled: true,
            is_locked: false,
            origin_chain_id,
            creation_timestamp: ctx.timestamp,
        };
        self.record_new_asset(asset, ctx.recipient);
        let receipt = CrossChainReceipt {
            origin_chain_id,
            origin_tx_hash,
            mint: ctx.mint,
            recipient: ctx.recipient,
            original_owner,
            nonce,
            timestamp: ctx.timestamp,
            tss_signature,
        };
        proof {
            lemma_unique_push(self.receipts@, receipt);
            lemma_keyed_push(self.receipts@, receipt);
        }
        self.receipts.push(receipt);
        Ok(
            CrossChainReceiveEvent {
                mint: ctx.mint,
                recipient: ctx.recipient,
                origin_chain_id,
                nonce,
                timestamp: ctx.timestamp,
            },
        )
    }

    /// Why an ownership check of `token_mint` by `owner` fails, if it does.
    pub open spec fn ownership_error(&self, owner: Pubkey, token_mint: Pubkey) -> Option<
        UniversalNftError,
    > {
        if !self.asset_map().contains_key(token_mint) {
            Some(UniversalNftError::InvalidMint)
        } else if self.balance_of(token_mint, owner) == 0 {
            Some(UniversalNftError::InsufficientTokens)
        } else {
            None
        }
    }

    /// Confirms that `token_mint` is a registered asset and that the signer
    /// holds it, and returns the audit notice with the asset's flags.
    pub fn verify_ownership(&self, ctx: &VerifyOwnership, token_mint: Pubkey) -> (r: Result<
        OwnershipVerifiedEvent,
        UniversalNftError,
    >)
        requires
            self.well_formed(),
        ensures
            match self.ownership_error(ctx.owner, token_mint) {
                Some(e) => r == Err::<OwnershipVerifiedEvent, UniversalNftError>(e),
                None => r == Ok::<OwnershipVerifiedEvent, UniversalNftError>(
                    OwnershipVerifiedEvent {
                        mint: token_mint,
                        owner: ctx.owner,
                        cross_chain_enabled: self.asset_map()[token_mint].cross_chain_enabled,
                        is_locked: self.asset_map()[token_mint].is_locked,
                        timestamp: ctx.timestamp,
                    },
                ),
            },
    {
        let idx = match find_asset(&self.assets, &token_mint) {
            Some(i) => i,
            None => {
                return Err(UniversalNftError::InvalidMint);
            },
        };
        if self.token_balance(&token_mint, &ctx.owner) == 0 {
            return Err(UniversalNftError::InsufficientTokens);
        }
        Ok(
            OwnershipVerifiedEvent {
                mint: token_mint,
                owner: ctx.owner,
                cross_chain_enabled: self.assets[idx].cross_chain_enabled,
                is_locked: self.assets[idx].is_locked,
                timestamp: ctx.timestamp,
            },
        )
    }

    /// The summary record.
    pub fn program_state(&self) -> (r: ProgramState)
        ensures
            r == self.summary(),
    {
        self.program_state
    }

    /// The configuration record.
    pub fn cross_chain_config(&self) -> (r: CrossChainConfig)
        ensures
            r == self.configuration(),
    {
        self.config
    }

    /// The asset record of `mint`, if any.
    pub fn nft_metadata(&self, mint: &Pubkey) -> (r: Option<&NftMetadata>)
        requires
            self.well_formed(),
        ensures
            match r {
                Some(a) => self.asset_map().contains_key(*mint) && *a == self.asset_map()[*mint],
                None => !self.asset_map().contains_key(*mint),
            },
    {
        match find_asset(&self.assets, mint) {
            Some(i) => Some(&self.assets[i]),
            None => None,
        }
    }

    /// The outbound transfer record under `(mint, nonce)`, if any.
    pub fn transfer_record(&self, mint: &Pubkey, nonce: u64) -> (r: Option<&CrossChainTransfer>)
        requires
            self.well_formed(),
        ensures
            match r {
                Some(t) => self.transfer_map().contains_key((*mint, nonce)) && *t
                    == self.transfer_map()[(*mint, nonce)],
                None => !self.transfer_map().contains_key((*mint, nonce)),
            },
    {
        match find_transfer(&self.transfers, mint, nonce) {
            Some(i) => Some(&self.transfers[i]),
            None => None,
        }
    }

    /// The inbound receipt under `(origin_tx_hash, nonce)`, if any.
    pub fn receipt(&self, origin_tx_hash: &Vec<u8>, nonce: u64) -> (r: Option<&CrossChainReceipt>)
        requires
            self.well_formed(),
        ensures
            match r {
                Some(c) => self.receipt_map().contains_key((origin_tx_hash@, nonce)) && *c
                    == self.receipt_map()[(origin_tx_hash@, nonce)],
                None => !self.receipt_map().contains_key((origin_tx_hash@, nonce)),
            },
    {
        match find_receipt(&self.receipts, origin_tx_hash, nonce) {
            Some(i) => Some(&self.receipts[i]),
            None => None,
        }
    }
}

} // verus!
