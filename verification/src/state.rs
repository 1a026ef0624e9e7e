//! The records of the ledger: the token, its holders' accounts, and the
//! notice of a transfer.

use anchor_lang::prelude::Pubkey;
use vstd::prelude::*;

verus! {

/// The token-wide record: who administers it, who may issue, how much is
/// outstanding, and how much may ever be.
#[derive(Clone, Copy, Debug, PartialEq, Eq)]
pub struct Token {
    pub authority: Pubkey,
    pub total_supply: u64,
    pub mint_authority: Pubkey,
    pub max_supply: u64,
}

impl Token {
    /// The supply is within its cap.
    pub open spec fn within_cap(self) -> bool {
        self.total_supply <= self.max_supply
    }

    /// This record with `amount` more outstanding. Meaningful while the sum
    /// fits in 64 bits.
    pub open spec fn issued(self, amount: u64) -> Token {
        Token { total_supply: (self.total_supply + amount) as u64, ..self }
    }

    /// This record with `amount` less outstanding. Meaningful while
    /// `amount` is no more than the supply.
    pub open spec fn retired(self, amount: u64) -> Token {
        Token { total_supply: (self.total_supply - amount) as u64, ..self }
    }
}

/// One holder's record.
#[derive(Clone, Copy, Debug, PartialEq, Eq)]
pub struct TokenAccount {
    pub owner: Pubkey,
    pub balance: u64,
}

impl TokenAccount {
    /// This account with `amount` added. Meaningful while the sum fits in
    /// 64 bits.
    pub open spec fn credited(self, amount: u64) -> TokenAccount {
        TokenAccount { balance: (self.balance + amount) as u64, ..self }
    }

    /// This account with `amount` taken out. Meaningful while `amount` is no
    /// more than the balance.
    pub open spec fn debited(self, amount: u64) -> TokenAccount {
        TokenAccount { balance: (self.balance - amount) as u64, ..self }
    }
}

/// The notice of a completed transfer, for whoever records such notices.
#[derive(Clone, Copy, Debug, PartialEq, Eq)]
pub struct TransferEvent {
    pub from: Pubkey,
    pub to: Pubkey,
    pub amount: u64,
}

} // verus!
