//! A fungible-token ledger for Solana programs, with its accounting rules
//! proved by Verus.

pub mod error;
pub mod identity;
pub mod instructions;
pub mod ledger;
pub mod state;

pub use anchor_lang::prelude::Pubkey;
pub use error::ErrorCode;
pub use instructions::{burn, initialize, mint, transfer};
pub use state::{Token, TokenAccount, TransferEvent};
