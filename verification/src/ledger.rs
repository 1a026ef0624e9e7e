//! The ledger as a whole: one token record with the accounts of its holders,
//! and what holds of it however many transitions it goes through.
//!
//! Everything here is ghost code. The transitions themselves work on single
//! records; this module puts the records side by side and proves that the
//! transitions keep the books balanced.

use crate::error::ErrorCode;
use crate::instructions::{burn_refusal, mint_refusal, transfer_refusal};
use crate::state::{Token, TokenAccount};
use anchor_lang::prelude::Pubkey;
use vstd::prelude::*;

verus! {

/// A token record and the accounts that hold the token.
pub struct Ledger {
    pub token: Token,
    pub accounts: Seq<TokenAccount>,
}

/// A request for one transition, naming accounts by their place in the
/// ledger.
pub enum Instruction {
    Transfer { from: int, to: int, amount: u64, authority: Pubkey },
    Mint { recipient: int, amount: u64, authority: Pubkey },
    Burn { account: int, amount: u64, authority: Pubkey },
}

/// The sum of the balances of `accounts`.
pub open spec fn total_balance(accounts: Seq<TokenAccount>) -> int
    decreases accounts.len(),
{
    if accounts.len() == 0 {
        0
    } else {
        total_balance(accounts.drop_last()) + accounts.last().balance
    }
}

impl Ledger {
    /// The balances add up to the supply.
    pub open spec fn conserved(self) -> bool {
        total_balance(self.accounts) == self.token.total_supply
    }

    /// The ledger has an account at place `i`.
    pub open spec fn holds(self, i: int) -> bool {
        0 <= i < self.accounts.len()
    }

    /// The ledger after `instruction`, where it goes through. `None` where
    /// the transition refuses it, and where it names an account that the
    /// ledger does not hold or names one account as both ends of a transfer.
    pub open spec fn step(self, instruction: Instruction) -> Option<Ledger> {
        match instruction {
            Instruction::Transfer { from, to, amount, authority } => {
                if self.holds(from) && self.holds(to) && from != to && transfer_refusal(
                    self.accounts[from],
                    self.accounts[to],
                    amount,
                    authority,
                ) is None {
                    Some(
                        Ledger {
                            token: self.token,
                            accounts: self.accounts.update(
                                from,
                                self.accounts[from].debited(amount),
                            ).update(to, self.accounts[to].credited(amount)),
                        },
                    )
                } else {
                    None
                }
            },
            Instruction::Mint { recipient, amount, authority } => {
                if self.holds(recipient) && mint_refusal(
                    self.token,
                    self.accounts[recipient],
                    amount,
                    authority,
                ) is None {
                    Some(
                        Ledger {
                            token: self.token.issued(amount),
                            accounts: self.accounts.update(
                                recipient,
                                self.accounts[recipient].credited(amount),
                            ),
                        },
                    )
                } else {
                    None
                }
            },
            Instruction::Burn { account, amount, authority } => {
                if self.holds(account) && burn_refusal(
                    self.accounts[account],
                    self.token,
                    amount,
                    authority,
                ) is None {
                    Some(
                        Ledger {
                            token: self.token.retired(amount),
                            accounts: self.accounts.update(
                                account,
                                self.accounts[account].debited(amount),
                            ),
                        },
                    )
                } else {
                    None
                }
            },
        }
    }

    /// The ledger after `instructions`, taken in order. One that does not go
    /// through leaves the ledger as it found it.
    pub open spec fn run(self, instructions: Seq<Instruction>) -> Ledger
        decreases instructions.len(),
    {
        if instructions.len() == 0 {
            self
        } else {
            let before = self.run(instructions.drop_last());
            match before.step(instructions.last()) {
                Some(after) => after,
                None => before,
            }
        }
    }
}

/// Replacing one account changes the total by the difference of the two
/// balances.
pub proof fn lemma_total_balance_update(
    accounts: Seq<TokenAccount>,
    i: int,
    account: TokenAccount,
)
    requires
        0 <= i < accounts.len(),
    ensures
        total_balance(accounts.update(i, account)) == total_balance(accounts)
            - accounts[i].balance + account.balance,
    decreases accounts.len(),
{
    let updated = accounts.update(i, account);
    if i == accounts.len() - 1 {
        assert(updated.drop_last() =~= accounts.drop_last());
    } else {
        assert(updated.drop_last() =~= accounts.drop_last().update(i, account));
        lemma_total_balance_update(accounts.drop_last(), i, account);
    }
}

/// No account holds more than all accounts together.
pub proof fn lemma_balance_within_total(accounts: Seq<TokenAccount>, i: int)
    requires
        0 <= i < accounts.len(),
    ensures
        0 <= accounts[i].balance <= total_balance(accounts),
    decreases accounts.len(),
{
    lemma_total_balance_nonnegative(accounts.drop_last());
    if i < accounts.len() - 1 {
        lemma_balance_within_total(accounts.drop_last(), i);
    }
}

/// A total of balances is never negative.
pub proof fn lemma_total_balance_nonnegative(accounts: Seq<TokenAccount>)
    ensures
        0 <= total_balance(accounts),
    decreases accounts.len(),
{
    if accounts.len() > 0 {
        lemma_total_balance_nonnegative(accounts.drop_last());
    }
}

/// Conservation, one transition at a time: where the balances add up to the
/// supply, they still do after any instruction that goes through. A
/// transfer leaves both unchanged; issuing and retiring move both by the
/// same amount.
pub proof fn lemma_step_conserves(ledger: Ledger, instruction: Instruction)
    requires
        ledger.conserved(),
    ensures
        ledger.step(instruction) matches Some(after) ==> after.conserved(),
        ledger.step(instruction) matches Some(after) ==> match instruction {
            Instruction::Transfer { .. } => {
                &&& after.token == ledger.token
                &&& total_balance(after.accounts) == total_balance(ledger.accounts)
            },
            Instruction::Mint { amount, .. } => {
                &&& after.token.total_supply == ledger.token.total_supply + amount
                &&& total_balance(after.accounts) == total_balance(ledger.accounts) + amount
            },
            Instruction::Burn { amount, .. } => {
                &&& after.token.total_supply == ledger.token.total_supply - amount
                &&& total_balance(after.accounts) == total_balance(ledger.accounts) - amount
            },
        },
{
    if ledger.step(instruction) is Some {
        match instruction {
            Instruction::Transfer { from, to, amount, authority } => {
                let debited = ledger.accounts.update(from, ledger.accounts[from].debited(amount));
                lemma_total_balance_update(
                    ledger.accounts,
                    from,
                    ledger.accounts[from].debited(amount),
                );
                lemma_total_balance_update(debited, to, ledger.accounts[to].credited(amount));
            },
            Instruction::Mint { recipient, amount, authority } => {
                lemma_total_balance_update(
                    ledger.accounts,
                    recipient,
                    ledger.accounts[recipient].credited(amount),
                );
            },
            Instruction::Burn { account, amount, authority } => {
                lemma_total_balance_update(
                    ledger.accounts,
                    account,
                    ledger.accounts[account].debited(amount),
                );
            },
        }
    }
}

/// The cap, one transition at a time: where the supply is within its cap,
/// it still is after any instruction that goes through, and the cap itself
/// never moves. After issuing, the supply is within the cap whatever it was
/// before.
pub proof fn lemma_step_keeps_cap(ledger: Ledger, instruction: Instruction)
    ensures
        ledger.step(instruction) matches Some(after) ==> {
            &&& after.token.max_supply == ledger.token.max_supply
            &&& ledger.token.within_cap() ==> after.token.within_cap()
            &&& instruction is Mint ==> after.token.within_cap()
        },
{
}

/// Conservation: where the balances add up to the supply, they still do
/// after any sequence of instructions, whichever of them go through.
pub proof fn lemma_run_conserves(ledger: Ledger, instructions: Seq<Instruction>)
    requires
        ledger.conserved(),
    ensures
        ledger.run(instructions).conserved(),
    decreases instructions.len(),
{
    if instructions.len() > 0 {
        lemma_run_conserves(ledger, instructions.drop_last());
        lemma_step_conserves(ledger.run(instructions.drop_last()), instructions.last());
    }
}

/// The cap: where the supply is within its cap, it still is after any
/// sequence of instructions, whichever of them go through.
pub proof fn lemma_run_keeps_cap(ledger: Ledger, instructions: Seq<Instruction>)
    requires
        ledger.token.within_cap(),
    ensures
        ledger.run(instructions).token.within_cap(),
        ledger.run(instructions).token.max_supply == ledger.token.max_supply,
    decreases instructions.len(),
{
    if instructions.len() > 0 {
        lemma_run_keeps_cap(ledger, instructions.drop_last());
        lemma_step_keeps_cap(ledger.run(instructions.drop_last()), instructions.last());
    }
}

/// A refused instruction changes nothing: the ledger after a sequence that
/// ends in one is the ledger after the sequence without it.
pub proof fn lemma_refusal_changes_nothing(
    ledger: Ledger,
    instructions: Seq<Instruction>,
    refused: Instruction,
)
    requires
        ledger.run(instructions).step(refused) is None,
    ensures
        ledger.run(instructions.push(refused)) == ledger.run(instructions),
{
    assert(instructions.push(refused).drop_last() =~= instructions);
}

/// In a ledger whose balances add up to the supply, arithmetic never stands
/// in the way of a holder: once the new supply is within the cap, the
/// recipient of an issue has room for the amount, and an account that holds
/// the amount to retire finds the supply holding it too.
pub proof fn lemma_conserved_ledger_has_room(
    ledger: Ledger,
    i: int,
    amount: u64,
    authority: Pubkey,
)
    requires
        ledger.conserved(),
        ledger.holds(i),
    ensures
        ledger.token.total_supply + amount <= ledger.token.max_supply
            ==> ledger.accounts[i].balance + amount <= u64::MAX,
        ledger.accounts[i].balance >= amount ==> ledger.token.total_supply >= amount,
        mint_refusal(ledger.token, ledger.accounts[i], amount, authority) == Some(
            ErrorCode::ArithmeticOverflow,
        ) ==> ledger.token.total_supply + amount > u64::MAX,
        burn_refusal(ledger.accounts[i], ledger.token, amount, authority) != Some(
            ErrorCode::ArithmeticOverflow,
        ),
{
    lemma_balance_within_total(ledger.accounts, i);
}

} // verus!
