//! A freeze-authority delegation engine for tokens: a per-mint configuration
//! record holds the token's native freeze authority, and permissionless
//! freeze and thaw requests are gated by an external decision program.
//!
//! - `address`, `pda`: 32-byte identities and their deterministic derivation.
//! - `state`: the configuration record and its byte layout.
//! - `accounts`: accounts as operations see them, and the token program's
//!   freeze and thaw as this engine relies on them.
//! - `config`: creating, changing and deleting the configuration record.
//! - `permissioned`: freeze and thaw signed by the record's authority.
//! - `permissionless`: the guarded, gated freeze and thaw.
//! - `resolver`: the extra-context descriptor lists and their resolution.
//! - `instruction`, `requests`, `client`, `metadata`: request bytes and the
//!   builders that assemble requests off the ledger.
//! - `laws`: properties that relate several operations.

pub mod address;
pub mod pda;
pub mod error;
pub mod state;
pub mod accounts;
pub mod resolver;
pub mod permissionless;
pub mod config;
pub mod permissioned;
pub mod instruction;
pub mod laws;
pub mod client;
pub mod metadata;
pub mod requests;
