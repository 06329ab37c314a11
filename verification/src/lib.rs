//! Access-control gateway for the freeze authority of a token mint.
//!
//! A mint's issuer hands the mint's freeze authority to this program. The
//! program keeps one configuration record per mint and lets the configured
//! authority freeze and thaw token accounts directly, or lets anybody do so
//! once a gating program, chosen by the issuer, has allowed the call.
//!
//! The library decides; it performs no call into the ledger itself. Every
//! operation yields the ordered steps that the host has to carry out as one
//! atomic unit.

pub mod account;
pub mod client;
pub mod config;
pub mod error;
pub mod gate;
pub mod instruction;
pub mod laws;
pub mod native;
pub mod offchain;
pub mod permissionless;
pub mod plan;
pub mod privileged;
pub mod processor;
pub mod program;
pub mod pubkey;
pub mod resolution;
pub mod state;
pub mod target;

