//! Token-ledger state machines: a fungible ledger (one balance per holder),
//! a multi-token ledger (balance per holder per token id, with optional
//! per-id metadata), and a non-fungible ledger (single owner per id).
//! Every ledger keeps three invariants: no stored entry is zero, the total
//! supply equals the sum of the live balances, and a state change happens
//! exactly when the paired event is recorded.

pub mod u256;

pub mod actor;

pub mod kv;

pub mod roles;

pub mod vft;

pub mod vft_service;

pub mod extended_vft;

pub mod vmt;

pub mod vmt_service;

pub mod extended_vmt;

pub mod vnft;

pub mod vnft_service;

pub mod extended_vnft;

pub mod program;

pub mod laws;
