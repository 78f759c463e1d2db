use universal_nft::bridge::Bridge;
use universal_nft::compute::{calculate_compute_budget, check_compute_budget, increase_compute_budget};
use universal_nft::error::UniversalNftError;
use universal_nft::instructions::{
    Initialize, InitiateCrossChainTransfer, MintNft, ReceiveCrossChain, VerifyOwnership,
};
use universal_nft::security::{build_receipt_message, verify_tss_signature};
use universal_nft::state::{Pubkey, TransferStatus};

fn key(b: u8) -> Pubkey {
    Pubkey::new([b; 32])
}

const HOME: u64 = 1;

fn ready() -> Bridge {
    let mut b = Bridge::new();
    b.initialize(&Initialize { authority: key(9) }, key(0xA), key(0xB), HOME).unwrap();
    b
}

fn mint(b: &mut Bridge, owner: Pubkey, mint: Pubkey, uri: &str, enabled: bool) -> Result<(), UniversalNftError> {
    b.mint_nft(
        &MintNft { authority: owner, mint, timestamp: 100 },
        uri.to_string(),
        "Art".to_string(),
        "ART".to_string(),
        enabled,
    )
}

fn transfer(b: &mut Bridge, owner: Pubkey, m: Pubkey, dest: u64, recipient: Vec<u8>, nonce: u64)
    -> Result<universal_nft::instructions::CrossChainTransferEvent, UniversalNftError> {
    b.cross_chain_transfer(&InitiateCrossChainTransfer { owner, mint: m, timestamp: 200 }, dest, recipient, nonce)
}

fn receive(b: &mut Bridge, m: Pubkey, tx: Vec<u8>, nonce: u64)
    -> Result<universal_nft::instructions::CrossChainReceiveEvent, UniversalNftError> {
    b.receive_cross_chain(
        &ReceiveCrossChain { authority: key(9), mint: m, recipient: key(0x77), timestamp: 300 },
        2,
        tx,
        "ipfs://y".to_string(),
        "B".to_string(),
        "B".to_string(),
        vec![0x02; 20],
        vec![0x03; 10],
        nonce,
    )
}

#[test]
fn mint_then_transfer_locks_the_asset() {
    let mut b = ready();
    let owner = key(0x0F);
    let m = key(0x10);
    mint(&mut b, owner, m, "ipfs://x", true).unwrap();
    let a = b.nft_metadata(&m).unwrap();
    assert!(!a.is_locked);
    assert_eq!(a.origin_chain_id, HOME);
    assert_eq!(a.original_owner, owner);
    assert_eq!(a.metadata_uri, "ipfs://x");
    assert_eq!(b.program_state().total_nfts_minted, 1);
    assert_eq!(b.token_balance(&m, &owner), 1);

    let ev = transfer(&mut b, owner, m, 2, vec![0xAA; 20], 1).unwrap();
    assert_eq!(ev.mint, m);
    assert_eq!(ev.owner, owner);
    assert_eq!(ev.destination_chain_id, 2);
    assert_eq!(ev.recipient_address, vec![0xAA; 20]);
    assert_eq!(ev.nonce, 1);
    assert_eq!(ev.timestamp, 200);
    assert!(b.nft_metadata(&m).unwrap().is_locked);
    let rec = b.transfer_record(&m, 1).unwrap();
    assert_eq!(rec.status, TransferStatus::Pending);
    assert_eq!(rec.recipient_address, vec![0xAA; 20]);
    assert_eq!(b.program_state().cross_chain_transfers, 1);

    assert_eq!(transfer(&mut b, owner, m, 2, vec![0xAA; 20], 2).unwrap_err(), UniversalNftError::NftLocked);
    assert_eq!(b.program_state().cross_chain_transfers, 1);
}

#[test]
fn receive_mints_and_refuses_replay() {
    let mut b = ready();
    let m = key(0x20);
    let ev = receive(&mut b, m, vec![0x01; 32], 5).unwrap();
    assert_eq!(ev.mint, m);
    assert_eq!(ev.recipient, key(0x77));
    assert_eq!(ev.origin_chain_id, 2);
    assert_eq!(ev.nonce, 5);
    let a = b.nft_metadata(&m).unwrap();
    assert_eq!(a.origin_chain_id, 2);
    assert!(a.cross_chain_enabled);
    assert!(!a.is_locked);
    assert_eq!(a.current_owner, key(0x77));
    assert_eq!(b.token_balance(&m, &key(0x77)), 1);
    let r = b.receipt(&vec![0x01; 32], 5).unwrap();
    assert_eq!(r.original_owner, vec![0x02; 20]);
    assert_eq!(r.tss_signature, vec![0x03; 10]);
    assert_eq!(b.program_state().total_nfts_minted, 1);

    assert_eq!(receive(&mut b, m, vec![0x01; 32], 5).unwrap_err(), UniversalNftError::AlreadyExists);
    // A fresh mint does not get past the receipt either.
    assert_eq!(receive(&mut b, key(0x21), vec![0x01; 32], 5).unwrap_err(), UniversalNftError::AlreadyExists);
    assert_eq!(b.program_state().total_nfts_minted, 1);
}

#[test]
fn same_tx_hash_other_nonce_is_a_distinct_receipt() {
    let mut b = ready();
    receive(&mut b, key(0x20), vec![0x01; 32], 5).unwrap();
    receive(&mut b, key(0x21), vec![0x01; 32], 6).unwrap();
    assert!(b.receipt(&vec![0x01; 32], 5).is_some());
    assert!(b.receipt(&vec![0x01; 32], 6).is_some());
    assert!(b.receipt(&vec![0x01; 32], 7).is_none());
    assert_eq!(b.program_state().total_nfts_minted, 2);
}

#[test]
fn nonce_must_exceed_counter() {
    let mut b = ready();
    let owner = key(0x0F);
    mint(&mut b, owner, key(0x10), "u", true).unwrap();
    mint(&mut b, owner, key(0x11), "u", true).unwrap();
    assert_eq!(b.cross_chain_config().nonce_counter, 0);
    assert_eq!(transfer(&mut b, owner, key(0x10), 2, vec![1], 0).unwrap_err(), UniversalNftError::InvalidNonce);
    transfer(&mut b, owner, key(0x10), 2, vec![1], 1).unwrap();
    // The counter is not advanced: the same nonce on another asset passes.
    assert_eq!(b.cross_chain_config().nonce_counter, 0);
    transfer(&mut b, owner, key(0x11), 2, vec![1], 1).unwrap();
    // Resubmitting a pair fails.
    assert!(transfer(&mut b, owner, key(0x10), 2, vec![1], 1).is_err());
}

#[test]
fn uri_boundary() {
    let mut b = ready();
    let owner = key(0x0F);
    let u200 = "a".repeat(200);
    let u201 = "a".repeat(201);
    mint(&mut b, owner, key(0x10), &u200, true).unwrap();
    assert_eq!(mint(&mut b, owner, key(0x11), &u201, true).unwrap_err(), UniversalNftError::InvalidMetadataUri);
    assert!(b.nft_metadata(&key(0x11)).is_none());
}

#[test]
fn lengths_count_bytes_not_characters() {
    let mut b = ready();
    let owner = key(0x0F);
    // 100 two-byte characters are 200 bytes; 101 are 202.
    mint(&mut b, owner, key(0x10), &"é".repeat(100), true).unwrap();
    assert_eq!(mint(&mut b, owner, key(0x11), &"é".repeat(101), true).unwrap_err(), UniversalNftError::InvalidMetadataUri);
}

#[test]
fn name_and_symbol_bounds() {
    let mut b = ready();
    let owner = key(0x0F);
    let ctx = MintNft { authority: owner, mint: key(0x10), timestamp: 1 };
    assert_eq!(
        b.mint_nft(&ctx, "u".to_string(), "n".repeat(33), "S".to_string(), true).unwrap_err(),
        UniversalNftError::InvalidMetadataUri
    );
    assert_eq!(
        b.mint_nft(&ctx, "u".to_string(), "n".to_string(), "S".repeat(11), true).unwrap_err(),
        UniversalNftError::InvalidMetadataUri
    );
    b.mint_nft(&ctx, "u".to_string(), "n".repeat(32), "S".repeat(10), true).unwrap();
}

#[test]
fn recipient_boundary() {
    let mut b = ready();
    let owner = key(0x0F);
    mint(&mut b, owner, key(0x10), "u", true).unwrap();
    mint(&mut b, owner, key(0x11), "u", true).unwrap();
    assert_eq!(transfer(&mut b, owner, key(0x10), 2, vec![], 1).unwrap_err(), UniversalNftError::InvalidRecipientAddress);
    assert_eq!(transfer(&mut b, owner, key(0x10), 2, vec![7; 65], 1).unwrap_err(), UniversalNftError::InvalidRecipientAddress);
    transfer(&mut b, owner, key(0x10), 2, vec![7; 64], 1).unwrap();
    transfer(&mut b, owner, key(0x11), 2, vec![7; 1], 1).unwrap();
}

#[test]
fn transfer_refusals() {
    let mut b = ready();
    let owner = key(0x0F);
    mint(&mut b, owner, key(0x10), "u", true).unwrap();
    mint(&mut b, owner, key(0x12), "u", false).unwrap();
    assert_eq!(transfer(&mut b, owner, key(0x12), 2, vec![1], 1).unwrap_err(), UniversalNftError::CrossChainNotEnabled);
    assert_eq!(transfer(&mut b, owner, key(0x13), 2, vec![1], 1).unwrap_err(), UniversalNftError::InvalidMint);
    assert_eq!(transfer(&mut b, key(0x55), key(0x10), 2, vec![1], 1).unwrap_err(), UniversalNftError::InsufficientTokens);
    assert_eq!(transfer(&mut b, owner, key(0x10), 0, vec![1], 1).unwrap_err(), UniversalNftError::UnsupportedChain);
    assert_eq!(transfer(&mut b, owner, key(0x10), HOME, vec![1], 1).unwrap_err(), UniversalNftError::UnsupportedChain);
    assert!(!b.nft_metadata(&key(0x10)).unwrap().is_locked);
    assert_eq!(b.program_state().cross_chain_transfers, 0);
}

#[test]
fn operations_need_initialization() {
    let mut b = Bridge::new();
    assert_eq!(mint(&mut b, key(1), key(2), "u", true).unwrap_err(), UniversalNftError::ProgramNotInitialized);
    assert_eq!(transfer(&mut b, key(1), key(2), 2, vec![1], 1).unwrap_err(), UniversalNftError::ProgramNotInitialized);
    assert_eq!(receive(&mut b, key(2), vec![1], 1).unwrap_err(), UniversalNftError::ProgramNotInitialized);
}

#[test]
fn initialize_once() {
    let mut b = ready();
    let c = b.cross_chain_config();
    assert_eq!(c.gateway_address, key(0xA));
    assert_eq!(c.tss_address, key(0xB));
    assert_eq!(c.chain_id, HOME);
    assert!(!c.is_paused);
    assert_eq!(b.program_state().authority, key(9));
    assert!(b.program_state().is_initialized);
    assert_eq!(
        b.initialize(&Initialize { authority: key(3) }, key(4), key(5), 7).unwrap_err(),
        UniversalNftError::AlreadyExists
    );
    assert_eq!(b.cross_chain_config().chain_id, HOME);
}

#[test]
fn mint_of_a_taken_mint_is_refused() {
    let mut b = ready();
    mint(&mut b, key(1), key(2), "u", true).unwrap();
    assert_eq!(mint(&mut b, key(3), key(2), "v", true).unwrap_err(), UniversalNftError::AlreadyExists);
    assert_eq!(b.nft_metadata(&key(2)).unwrap().metadata_uri, "u");
}

#[test]
fn receive_refusals() {
    let mut b = ready();
    let ctx = ReceiveCrossChain { authority: key(9), mint: key(0x20), recipient: key(0x77), timestamp: 1 };
    let call = |b: &mut Bridge, tx: Vec<u8>, owner: Vec<u8>, sig: Vec<u8>, uri: String| {
        b.receive_cross_chain(&ctx, 2, tx, uri, "B".to_string(), "B".to_string(), owner, sig, 1)
    };
    assert_eq!(call(&mut b, vec![], vec![2], vec![3], "u".into()).unwrap_err(), UniversalNftError::InvalidOriginTxHash);
    assert_eq!(call(&mut b, vec![1; 65], vec![2], vec![3], "u".into()).unwrap_err(), UniversalNftError::InvalidOriginTxHash);
    assert_eq!(call(&mut b, vec![1], vec![], vec![3], "u".into()).unwrap_err(), UniversalNftError::InvalidOriginalOwner);
    assert_eq!(call(&mut b, vec![1], vec![2; 65], vec![3], "u".into()).unwrap_err(), UniversalNftError::InvalidOriginalOwner);
    assert_eq!(call(&mut b, vec![1], vec![2], vec![], "u".into()).unwrap_err(), UniversalNftError::InvalidTssSignature);
    assert_eq!(call(&mut b, vec![1], vec![2], vec![3; 129], "u".into()).unwrap_err(), UniversalNftError::InvalidTssSignature);
    assert_eq!(call(&mut b, vec![1], vec![2], vec![3], "a".repeat(201)).unwrap_err(), UniversalNftError::InvalidMetadataUri);
    assert!(b.nft_metadata(&key(0x20)).is_none());
    call(&mut b, vec![1; 64], vec![2; 64], vec![3; 128], "a".repeat(200)).unwrap();
}

#[test]
fn ownership_round_trip() {
    let mut b = ready();
    let owner = key(0x0F);
    let m = key(0x10);
    mint(&mut b, owner, m, "u", true).unwrap();
    let ev = b.verify_ownership(&VerifyOwnership { owner, timestamp: 5 }, m).unwrap();
    assert_eq!(ev.mint, m);
    assert_eq!(ev.owner, owner);
    assert!(ev.cross_chain_enabled);
    assert!(!ev.is_locked);
    assert_eq!(ev.timestamp, 5);
    assert_eq!(
        b.verify_ownership(&VerifyOwnership { owner: key(0x44), timestamp: 5 }, m).unwrap_err(),
        UniversalNftError::InsufficientTokens
    );
    assert_eq!(
        b.verify_ownership(&VerifyOwnership { owner, timestamp: 5 }, key(0x99)).unwrap_err(),
        UniversalNftError::InvalidMint
    );
    transfer(&mut b, owner, m, 2, vec![1], 1).unwrap();
    assert!(b.verify_ownership(&VerifyOwnership { owner, timestamp: 6 }, m).unwrap().is_locked);
}

#[test]
fn receipt_message_layout() {
    let m = build_receipt_message(0x0102, &vec![0xAA, 0xBB], "u", "é", "S", &vec![0xCC], 5);
    assert_eq!(
        m,
        vec![0x02, 0x01, 0, 0, 0, 0, 0, 0, 0xAA, 0xBB, b'u', 0xC3, 0xA9, b'S', 0xCC, 5, 0, 0, 0, 0, 0, 0, 0]
    );
}

#[test]
fn placeholder_signature_check() {
    assert_eq!(verify_tss_signature(&[1], &[2], &key(0)), Ok(true));
    assert_eq!(verify_tss_signature(&[1], &[], &key(0)), Err(UniversalNftError::InvalidTssSignature));
    assert_eq!(verify_tss_signature(&[], &[2], &key(0)), Err(UniversalNftError::InvalidTssSignature));
}

#[test]
fn compute_budgets() {
    assert_eq!(calculate_compute_budget("mint"), 200_000);
    assert_eq!(calculate_compute_budget("cross_chain_transfer"), 300_000);
    assert_eq!(calculate_compute_budget("receive_cross_chain"), 400_000);
    assert_eq!(calculate_compute_budget("verify_ownership"), 50_000);
    assert_eq!(calculate_compute_budget("mintx"), 100_000);
    assert_eq!(calculate_compute_budget(""), 100_000);
    assert_eq!(check_compute_budget(10, 9), Err(UniversalNftError::ComputeBudgetExceeded));
    assert_eq!(check_compute_budget(10, 10), Ok(()));
    assert_eq!(increase_compute_budget(5), Ok(()));
}

#[test]
fn pubkey_equality() {
    let mut a = [0u8; 32];
    a[31] = 1;
    assert!(key(0).same(&key(0)));
    assert!(!key(0).same(&Pubkey::new(a)));
}
