//! Core of a cross-chain NFT bridge: asset records that are minted on a home
//! ledger, locked for outbound transfers, and minted from relayed inbound
//! receipts, with nonce ordering, replay protection and signature checks.
//!
//! The host runtime's clock, account creation and event log stay with the
//! caller: operations take the current timestamp as a value and return the
//! notification they emit.

pub mod error;
pub mod state;
pub mod store;
pub mod security;
pub mod compute;
pub mod instructions;
pub mod bridge;
pub mod laws;
