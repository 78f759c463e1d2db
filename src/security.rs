//! Authorization of inbound messages: the canonical byte layout that the
//! relay's trusted signer endorses, and the check of its signature.
use vstd::prelude::*;
use vstd::bytes::{spec_u64_to_le_bytes, u64_to_le_bytes};
use vstd::slice::slice_to_vec;
use vstd::utf8::encode_utf8;
use crate::error::UniversalNftError;
use crate::state::Pubkey;

verus! {

/// The canonical message of an inbound transfer: the origin chain id and the
/// nonce as 8 little-endian bytes each, around the transaction hash, the UTF-8
/// bytes of the URI, name and symbol, and the foreign owner's bytes, in that order.
pub open spec fn receipt_message(
    origin_chain_id: u64,
    origin_tx_hash: Seq<u8>,
    metadata_uri: Seq<char>,
    name: Seq<char>,
    symbol: Seq<char>,
    original_owner: Seq<u8>,
    nonce: u64,
) -> Seq<u8> {
    spec_u64_to_le_bytes(origin_chain_id) + origin_tx_hash + encode_utf8(metadata_uri)
        + encode_utf8(name) + encode_utf8(symbol) + original_owner + spec_u64_to_le_bytes(nonce)
}

/// Builds the canonical message of an inbound transfer.
pub fn build_receipt_message(
    origin_chain_id: u64,
    origin_tx_hash: &Vec<u8>,
    metadata_uri: &str,
    name: &str,
    symbol: &str,
    original_owner: &Vec<u8>,
    nonce: u64,
) -> (r: Vec<u8>)
    ensures
        r@ == receipt_message(
            origin_chain_id,
            origin_tx_hash@,
            metadata_uri@,
            name@,
            symbol@,
            original_owner@,
            nonce,
        ),
        r@.len() >= 16,
{
    let mut message = u64_to_le_bytes(origin_chain_id);
    let mut part = slice_to_vec(origin_tx_hash.as_slice());
    message.append(&mut part);
    let mut part = slice_to_vec(metadata_uri.as_bytes());
    message.append(&mut part);
    let mut part = slice_to_vec(name.as_bytes());
    message.append(&mut part);
    let mut part = slice_to_vec(symbol.as_bytes());
    message.append(&mut part);
    let mut part = slice_to_vec(original_owner.as_slice());
    message.append(&mut part);
    let mut part = u64_to_le_bytes(nonce);
    message.append(&mut part);
    message
}

/// What the authorization scheme accepts once both inputs are well-formed.
/// The scheme in place is a placeholder that endorses every non-empty
/// signature; a real threshold-signature check replaces this predicate and
/// the body of `verify_tss_signature` together.
pub open spec fn tss_signature_accepted(message: Seq<u8>, signature: Seq<u8>, tss_address: Pubkey) -> bool {
    message.len() > 0 && signature.len() > 0
}

/// Checks that `signature` endorses `message` on behalf of `tss_address`.
/// An empty message or signature is malformed and refused.
pub fn verify_tss_signature(message: &[u8], signature: &[u8], tss_address: &Pubkey) -> (r: Result<
    bool,
    UniversalNftError,
>)
    ensures
        r == (if signature@.len() == 0 || message@.len() == 0 {
            Err::<bool, UniversalNftError>(UniversalNftError::InvalidTssSignature)
        } else {
            Ok(tss_signature_accepted(message@, signature@, *tss_address))
        }),
{
    if signature.len() == 0 {
        return Err(UniversalNftError::InvalidTssSignature);
    }
    if message.len() == 0 {
        return Err(UniversalNftError::InvalidTssSignature);
    }
    Ok(true)
}

} // verus!
