//! The four transitions of the ledger. Each one makes all of its checks
//! before it writes anything, so a refusal leaves every record as it was.

use crate::error::ErrorCode;
use crate::identity::same_identity;
use crate::state::{Token, TokenAccount, TransferEvent};
use anchor_lang::prelude::Pubkey;
use vstd::prelude::*;

verus! {

/// Why a transfer of `amount` from `from` to `to`, asked for by `authority`,
/// is refused; `None` where it goes through. The checks come in this order:
/// the caller owns the source, the source holds the amount, the destination
/// has room for it.
pub open spec fn transfer_refusal(
    from: TokenAccount,
    to: TokenAccount,
    amount: u64,
    authority: Pubkey,
) -> Option<ErrorCode> {
    if authority != from.owner {
        Some(ErrorCode::Unauthorized)
    } else if from.balance < amount {
        Some(ErrorCode::InsufficientFunds)
    } else if to.balance + amount > u64::MAX {
        Some(ErrorCode::ArithmeticOverflow)
    } else {
        None
    }
}

/// Why issuing `amount` to `recipient`, asked for by `authority`, is
/// refused; `None` where it goes through. The checks come in this order: the
/// caller is the issuing authority, the new supply fits in 64 bits, the new
/// supply is within the cap, the recipient has room for the amount.
pub open spec fn mint_refusal(
    token: Token,
    recipient: TokenAccount,
    amount: u64,
    authority: Pubkey,
) -> Option<ErrorCode> {
    if authority != token.mint_authority {
        Some(ErrorCode::Unauthorized)
    } else if token.total_supply + amount > u64::MAX {
        Some(ErrorCode::ArithmeticOverflow)
    } else if token.total_supply + amount > token.max_supply {
        Some(ErrorCode::MaxSupplyExceeded)
    } else if recipient.balance + amount > u64::MAX {
        Some(ErrorCode::ArithmeticOverflow)
    } else {
        None
    }
}

/// Why retiring `amount` from `account`, asked for by `authority`, is
/// refused; `None` where it goes through. The checks come in this order: the
/// caller owns the account, the account holds the amount, the supply holds
/// the amount.
pub open spec fn burn_refusal(
    account: TokenAccount,
    token: Token,
    amount: u64,
    authority: Pubkey,
) -> Option<ErrorCode> {
    if authority != account.owner {
        Some(ErrorCode::Unauthorized)
    } else if account.balance < amount {
        Some(ErrorCode::InsufficientFunds)
    } else if token.total_supply < amount {
        Some(ErrorCode::ArithmeticOverflow)
    } else {
        None
    }
}

/// Moves `amount` from `from` to `to` on behalf of `authority`, and returns
/// the notice of the transfer for the caller to pass on.
pub fn transfer(
    from: &mut TokenAccount,
    to: &mut TokenAccount,
    amount: u64,
    authority: Pubkey,
) -> (result: Result<TransferEvent, ErrorCode>)
    ensures
        match transfer_refusal(*old(from), *old(to), amount, authority) {
            Some(code) => {
                &&& result == Err::<TransferEvent, ErrorCode>(code)
                &&& *final(from) == *old(from)
                &&& *final(to) == *old(to)
            },
            None => {
                &&& result == Ok::<TransferEvent, ErrorCode>(
                    (TransferEvent { from: old(from).owner, to: old(to).owner, amount }),
                )
                &&& *final(from) == old(from).debited(amount)
                &&& *final(to) == old(to).credited(amount)
                &&& final(from).balance == old(from).balance - amount
                &&& final(to).balance == old(to).balance + amount
            },
        },
        result is Err ==> *final(from) == *old(from) && *final(to) == *old(to),
{
    if !same_identity(&authority, &from.owner) {
        return Err(ErrorCode::Unauthorized);
    }
    if from.balance < amount {
        return Err(ErrorCode::InsufficientFunds);
    }
    let remaining = match from.balance.checked_sub(amount) {
        Some(balance) => balance,
        None => return Err(ErrorCode::ArithmeticOverflow),
    };
    let received = match to.balance.checked_add(amount) {
        Some(balance) => balance,
        None => return Err(ErrorCode::ArithmeticOverflow),
    };
    from.balance = remaining;
    to.balance = received;
    Ok(TransferEvent { from: from.owner, to: to.owner, amount })
}

/// Issues `amount` of new supply to `recipient` on behalf of `authority`.
pub fn mint(
    token: &mut Token,
    recipient: &mut TokenAccount,
    amount: u64,
    authority: Pubkey,
) -> (result: Result<(), ErrorCode>)
    ensures
        match mint_refusal(*old(token), *old(recipient), amount, authority) {
            Some(code) => {
                &&& result == Err::<(), ErrorCode>(code)
                &&& *final(token) == *old(token)
                &&& *final(recipient) == *old(recipient)
            },
            None => {
                &&& result == Ok::<(), ErrorCode>(())
                &&& *final(token) == old(token).issued(amount)
                &&& *final(recipient) == old(recipient).credited(amount)
                &&& final(token).total_supply == old(token).total_supply + amount
                &&& final(recipient).balance == old(recipient).balance + amount
            },
        },
        result is Err ==> *final(token) == *old(token) && *final(recipient) == *old(recipient),
        result is Ok ==> final(token).within_cap(),
{
    if !same_identity(&authority, &token.mint_authority) {
        return Err(ErrorCode::Unauthorized);
    }
    let new_supply = match token.total_supply.checked_add(amount) {
        Some(supply) => supply,
        None => return Err(ErrorCode::ArithmeticOverflow),
    };
    if new_supply > token.max_supply {
        return Err(ErrorCode::MaxSupplyExceeded);
    }
    let received = match recipient.balance.checked_add(amount) {
        Some(balance) => balance,
        None => return Err(ErrorCode::ArithmeticOverflow),
    };
    token.total_supply = new_supply;
    recipient.balance = received;
    Ok(())
}

/// Retires `amount` from `account`, and from the supply, on behalf of
/// `authority`.
pub fn burn(
    account: &mut TokenAccount,
    token: &mut Token,
    amount: u64,
    authority: Pubkey,
) -> (result: Result<(), ErrorCode>)
    ensures
        match burn_refusal(*old(account), *old(token), amount, authority) {
            Some(code) => {
                &&& result == Err::<(), ErrorCode>(code)
                &&& *final(account) == *old(account)
                &&& *final(token) == *old(token)
            },
            None => {
                &&& result == Ok::<(), ErrorCode>(())
                &&& *final(account) == old(account).debited(amount)
                &&& *final(token) == old(token).retired(amount)
                &&& final(account).balance == old(account).balance - amount
                &&& final(token).total_supply == old(token).total_supply - amount
            },
        },
        result is Err ==> *final(account) == *old(account) && *final(token) == *old(token),
        result is Ok && old(token).within_cap() ==> final(token).within_cap(),
{
    if !same_identity(&authority, &account.owner) {
        return Err(ErrorCode::Unauthorized);
    }
    if account.balance < amount {
        return Err(ErrorCode::InsufficientFunds);
    }
    let remaining = match account.balance.checked_sub(amount) {
        Some(balance) => balance,
        None => return Err(ErrorCode::ArithmeticOverflow),
    };
    let new_supply = match token.total_supply.checked_sub(amount) {
        Some(supply) => supply,
        None => return Err(ErrorCode::ArithmeticOverflow),
    };
    account.balance = remaining;
    token.total_supply = new_supply;
    Ok(())
}

/// Makes the token record: `authority` administers it and may issue,
/// `total_supply` is outstanding from the start, and `max_supply` caps what
/// may ever be outstanding.
pub fn initialize(authority: Pubkey, total_supply: u64, max_supply: u64) -> (result: Result<
    Token,
    ErrorCode,
>)
    ensures
        total_supply <= max_supply ==> result == Ok::<Token, ErrorCode>(
            (Token { authority, total_supply, mint_authority: authority, max_supply }),
        ),
        total_supply > max_supply ==> result == Err::<Token, ErrorCode>(ErrorCode::InvalidCap),
        result matches Ok(token) ==> token.within_cap(),
{
    if total_supply > max_supply {
        return Err(ErrorCode::InvalidCap);
    }
    Ok(Token { authority, total_supply, mint_authority: authority, max_supply })
}

/// A transfer never wraps. For the owner of a source that holds the amount,
/// a destination without room for it is refused as an overflow; and a
/// transfer that goes through leaves the exact difference and the exact sum.
pub proof fn lemma_transfer_never_wraps(from: TokenAccount, to: TokenAccount, amount: u64)
    ensures
        from.balance >= amount && to.balance + amount > u64::MAX ==> transfer_refusal(
            from,
            to,
            amount,
            from.owner,
        ) == Some(ErrorCode::ArithmeticOverflow),
        transfer_refusal(from, to, amount, from.owner) is None ==> {
            &&& from.debited(amount).balance == from.balance - amount
            &&& to.credited(amount).balance == to.balance + amount
        },
{
}

/// Issuing never wraps. For the issuing authority, an amount that would take
/// the supply out of 64 bits is refused as an overflow, and so is one that
/// the cap admits but the recipient has no room for; and an issue that goes
/// through leaves the exact sums.
pub proof fn lemma_mint_never_wraps(token: Token, recipient: TokenAccount, amount: u64)
    ensures
        token.total_supply + amount > u64::MAX ==> mint_refusal(
            token,
            recipient,
            amount,
            token.mint_authority,
        ) == Some(ErrorCode::ArithmeticOverflow),
        token.total_supply + amount <= token.max_supply && recipient.balance + amount > u64::MAX
            ==> mint_refusal(token, recipient, amount, token.mint_authority) == Some(
            ErrorCode::ArithmeticOverflow,
        ),
        mint_refusal(token, recipient, amount, token.mint_authority) is None ==> {
            &&& token.issued(amount).total_supply == token.total_supply + amount
            &&& recipient.credited(amount).balance == recipient.balance + amount
        },
{
}

/// Retiring never wraps. For the owner of an account that holds the amount,
/// a supply that does not hold it is refused as an overflow; and a retiring
/// that goes through leaves the exact differences.
pub proof fn lemma_burn_never_wraps(account: TokenAccount, token: Token, amount: u64)
    ensures
        account.balance >= amount && token.total_supply < amount ==> burn_refusal(
            account,
            token,
            amount,
            account.owner,
        ) == Some(ErrorCode::ArithmeticOverflow),
        burn_refusal(account, token, amount, account.owner) is None ==> {
            &&& account.debited(amount).balance == account.balance - amount
            &&& token.retired(amount).total_supply == token.total_supply - amount
        },
{
}

} // verus!
