//! Verified decision logic of a suite of Solana on-chain programs: a
//! constant-product AMM, a calculator, a SOL transfer through the system
//! program, two token escrows, an NFT marketplace, an NFT staking program and
//! a SOL vault.
//!
//! Every instruction is split in two. The library decides: it checks the
//! instruction's rules, computes the new account state and lists the token
//! and lamport movements ([`ledger::TokenAction`]) that the instruction makes.
//! The runtime side performs those movements by cross-program invocation.

pub mod ledger;
pub mod amm;
pub mod calculator;
pub mod cpi_contract;
pub mod escrow_blueshift;
pub mod escrow;
pub mod marketplace;
pub mod staking;
pub mod vault;
