//! Properties of the bridge across operations, stated over the same spec
//! functions that the operations' contracts use.
use vstd::prelude::*;
use crate::bridge::{Bridge, MAX_ADDRESS_LEN};
use crate::error::UniversalNftError;
use crate::instructions::{InitiateCrossChainTransfer, MintNft, ReceiveCrossChain};
use crate::state::Pubkey;

verus! {

/// When every other check of an outbound transfer passes, it is accepted
/// exactly when its nonce is above the configuration's counter, and refused
/// with `InvalidNonce` otherwise.
pub proof fn law_outbound_nonce_gate(
    b: Bridge,
    owner: Pubkey,
    mint: Pubkey,
    destination_chain_id: u64,
    recipient_address: Seq<u8>,
    nonce: u64,
)
    requires
        b.summary().is_initialized,
        !b.configuration().is_paused,
        b.asset_map().contains_key(mint),
        b.asset_map()[mint].cross_chain_enabled,
        !b.asset_map()[mint].is_locked,
        b.balance_of(mint, owner) > 0,
        0 < recipient_address.len() <= MAX_ADDRESS_LEN,
        destination_chain_id != 0,
        destination_chain_id != b.configuration().chain_id,
        !b.transfer_map().contains_key((mint, nonce)),
        b.summary().cross_chain_transfers < u64::MAX,
    ensures
        b.transfer_error(owner, mint, destination_chain_id, recipient_address, nonce) is None
            <==> nonce > b.configuration().nonce_counter,
        nonce <= b.configuration().nonce_counter ==> b.transfer_error(
            owner,
            mint,
            destination_chain_id,
            recipient_address,
            nonce,
        ) == Some(UniversalNftError::InvalidNonce),
{
}

/// An outbound transfer whose `(mint, nonce)` is already recorded is always
/// refused: the store never lets a second record take the same key.
pub proof fn law_recorded_transfer_refused(
    b: Bridge,
    owner: Pubkey,
    mint: Pubkey,
    destination_chain_id: u64,
    recipient_address: Seq<u8>,
    nonce: u64,
)
    requires
        b.transfer_map().contains_key((mint, nonce)),
    ensures
        b.transfer_error(owner, mint, destination_chain_id, recipient_address, nonce) is Some,
{
}

/// After an outbound transfer of `(mint, nonce)` is accepted, resubmitting
/// the pair fails whatever the other arguments, and the counter that gates
/// nonces is left as it was, so a later nonce is judged against the same counter.
pub proof fn law_outbound_replay_refused(
    b1: Bridge,
    b2: Bridge,
    ctx: InitiateCrossChainTransfer,
    destination_chain_id: u64,
    recipient_address: Vec<u8>,
    nonce: u64,
    owner2: Pubkey,
    destination_chain_id2: u64,
    recipient_address2: Seq<u8>,
)
    requires
        b1.transfer_error(ctx.owner, ctx.mint, destination_chain_id, recipient_address@, nonce) is None,
        b1.transfer_step(b2, ctx, destination_chain_id, recipient_address, nonce),
    ensures
        b2.transfer_error(owner2, ctx.mint, destination_chain_id2, recipient_address2, nonce) is Some,
        b2.transfer_map().contains_key((ctx.mint, nonce)),
        b2.configuration().nonce_counter == b1.configuration().nonce_counter,
{
    assert(b2.transfer_map().contains_key((ctx.mint, nonce)));
}

/// After an outbound transfer of an asset is accepted, every further outbound
/// transfer of that asset is refused with `NftLocked`, whatever its nonce.
pub proof fn law_locked_after_transfer(
    b1: Bridge,
    b2: Bridge,
    ctx: InitiateCrossChainTransfer,
    destination_chain_id: u64,
    recipient_address: Vec<u8>,
    nonce: u64,
    owner2: Pubkey,
    destination_chain_id2: u64,
    recipient_address2: Seq<u8>,
    nonce2: u64,
)
    requires
        b1.transfer_error(ctx.owner, ctx.mint, destination_chain_id, recipient_address@, nonce) is None,
        b1.transfer_step(b2, ctx, destination_chain_id, recipient_address, nonce),
    ensures
        b2.asset_map()[ctx.mint].is_locked,
        b2.transfer_error(owner2, ctx.mint, destination_chain_id2, recipient_address2, nonce2)
            == Some(UniversalNftError::NftLocked),
{
    assert(b2.asset_map()[ctx.mint].is_locked);
}

/// After an inbound message under `(origin_tx_hash, nonce)` is processed, any
/// message under the same pair is refused, and the identical message is
/// refused as a duplicate.
pub proof fn law_inbound_replay_refused(
    b1: Bridge,
    b2: Bridge,
    ctx: ReceiveCrossChain,
    origin_chain_id: u64,
    origin_tx_hash: Vec<u8>,
    metadata_uri: String,
    name: String,
    symbol: String,
    original_owner: Vec<u8>,
    tss_signature: Vec<u8>,
    nonce: u64,
    mint2: Pubkey,
    origin_chain_id2: u64,
    metadata_uri2: Seq<char>,
    name2: Seq<char>,
    symbol2: Seq<char>,
    original_owner2: Seq<u8>,
    tss_signature2: Seq<u8>,
)
    requires
        b1.receive_error(
            ctx.mint,
            origin_chain_id,
            origin_tx_hash@,
            metadata_uri@,
            name@,
            symbol@,
            original_owner@,
            tss_signature@,
            nonce,
        ) is None,
        b1.receive_step(
            b2,
            ctx,
            origin_chain_id,
            origin_tx_hash,
            metadata_uri,
            name,
            symbol,
            original_owner,
            tss_signature,
            nonce,
        ),
    ensures
        b2.receive_error(
            mint2,
            origin_chain_id2,
            origin_tx_hash@,
            metadata_uri2,
            name2,
            symbol2,
            original_owner2,
            tss_signature2,
            nonce,
        ) is Some,
        b2.receive_error(
            ctx.mint,
            origin_chain_id,
            origin_tx_hash@,
            metadata_uri@,
            name@,
            symbol@,
            original_owner@,
            tss_signature@,
            nonce,
        ) == Some(UniversalNftError::AlreadyExists),
{
    assert(b2.receipt_map().contains_key((origin_tx_hash@, nonce)));
    assert(b2.asset_map().contains_key(ctx.mint));
}

/// After an inbound message is processed, a message with the same
/// transaction hash under another nonce, for a fresh mint, is accepted as a
/// distinct receipt when it would have been accepted before.
pub proof fn law_inbound_other_nonce_accepted(
    b1: Bridge,
    b2: Bridge,
    ctx: ReceiveCrossChain,
    origin_chain_id: u64,
    origin_tx_hash: Vec<u8>,
    metadata_uri: String,
    name: String,
    symbol: String,
    original_owner: Vec<u8>,
    tss_signature: Vec<u8>,
    nonce: u64,
    mint2: Pubkey,
    origin_chain_id2: u64,
    metadata_uri2: Seq<char>,
    name2: Seq<char>,
    symbol2: Seq<char>,
    original_owner2: Seq<u8>,
    tss_signature2: Seq<u8>,
    nonce2: u64,
)
    requires
        b1.receive_error(
            ctx.mint,
            origin_chain_id,
            origin_tx_hash@,
            metadata_uri@,
            name@,
            symbol@,
            original_owner@,
            tss_signature@,
            nonce,
        ) is None,
        b1.receive_step(
            b2,
            ctx,
            origin_chain_id,
            origin_tx_hash,
            metadata_uri,
            name,
            symbol,
            original_owner,
            tss_signature,
            nonce,
        ),
        b1.receive_error(
            mint2,
            origin_chain_id2,
            origin_tx_hash@,
            metadata_uri2,
            name2,
            symbol2,
            original_owner2,
            tss_signature2,
            nonce2,
        ) is None,
        nonce2 != nonce,
        mint2 != ctx.mint,
        b1.summary().total_nfts_minted + 1 < u64::MAX,
    ensures
        b2.receive_error(
            mint2,
            origin_chain_id2,
            origin_tx_hash@,
            metadata_uri2,
            name2,
            symbol2,
            original_owner2,
            tss_signature2,
            nonce2,
        ) is None,
{
    assert(!b2.receipt_map().contains_key((origin_tx_hash@, nonce2)));
    assert(!b2.mint_taken(mint2));
}

/// A freshly minted asset passes the ownership check of its minter, with
/// its flags as minted, and fails that of any other wallet.
pub proof fn law_minted_asset_verifies(
    b1: Bridge,
    b2: Bridge,
    ctx: MintNft,
    metadata_uri: String,
    name: String,
    symbol: String,
    cross_chain_enabled: bool,
    other: Pubkey,
)
    requires
        b1.mint_error(ctx.mint, metadata_uri@, name@, symbol@) is None,
        b1.mint_step(b2, ctx, metadata_uri, name, symbol, cross_chain_enabled),
        other != ctx.authority,
    ensures
        b2.ownership_error(ctx.authority, ctx.mint) is None,
        b2.asset_map()[ctx.mint].cross_chain_enabled == cross_chain_enabled,
        !b2.asset_map()[ctx.mint].is_locked,
        b2.ownership_error(other, ctx.mint) == Some(UniversalNftError::InsufficientTokens),
{
    assert(b2.token_map().contains_key(ctx.mint));
}

/// A wallet that holds no unit of an asset fails its ownership check.
pub proof fn law_zero_balance_fails(b: Bridge, owner: Pubkey, mint: Pubkey)
    requires
        b.balance_of(mint, owner) == 0,
    ensures
        b.ownership_error(owner, mint) is Some,
{
}

} // verus!
