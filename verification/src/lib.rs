//! Pooled-stake challenge escrow: participants deposit a fungible asset into a
//! shared pool tied to a challenge identifier, an owner or administrator later
//! designates winners, winners split the pool, and if the challenge is canceled
//! instead each depositor recovers their own stake. A platform registry gates
//! which assets may be used and which identities may administer challenges.
//!
//! The execution substrate (account storage, signature checks, and the asset
//! transfer primitive) is an external collaborator: every fund-moving operation
//! here validates its preconditions, mutates the ledger, and returns a
//! [`event::TransferIntent`] that the surrounding runtime must carry out. If the
//! runtime fails to perform the transfer, it must discard the mutated entities,
//! so that the operation remains all-or-nothing.

pub mod model;
pub mod error;
pub mod state;
pub mod event;
pub mod transfer_assets_to_vault;
pub mod transfer_assets_from_vault;
pub mod initialize_challenge_program;
pub mod update_challenge_registry;
pub mod create_token_vault;
pub mod create_challenge;
pub mod cancel_challenge;
pub mod admin_cancel_challenge;
pub mod submit_winner_list;
pub mod laws;
