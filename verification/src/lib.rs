//! Two-party atomic token-swap escrow: the validation and transition logic
//! that moves funds through a program-controlled custody account.

pub mod account;
pub mod codec;
pub mod error;
pub mod instruction;
pub mod ledger;
pub mod processor;
pub mod pubkey;
pub mod state;
pub mod token;
