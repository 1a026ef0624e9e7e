use anchor_lang::prelude::Pubkey;
use secure_token::{burn, initialize, mint, transfer};
use secure_token::{ErrorCode, Token, TokenAccount, TransferEvent};

fn key(n: u8) -> Pubkey {
    Pubkey::new_from_array([n; 32])
}

fn token(total_supply: u64, max_supply: u64) -> Token {
    Token { authority: key(1), total_supply, mint_authority: key(1), max_supply }
}

fn account(owner: u8, balance: u64) -> TokenAccount {
    TokenAccount { owner: key(owner), balance }
}

#[test]
fn initialize_sets_supply_cap_and_authorities() {
    let made = initialize(key(7), 1000, 5000);
    assert_eq!(
        made,
        Ok(Token { authority: key(7), total_supply: 1000, mint_authority: key(7), max_supply: 5000 })
    );
}

#[test]
fn initialize_accepts_supply_equal_to_cap() {
    let made = initialize(key(7), 5000, 5000).unwrap();
    assert_eq!(made.total_supply, 5000);
    assert_eq!(made.max_supply, 5000);
}

#[test]
fn initialize_accepts_zero_supply_and_zero_cap() {
    let made = initialize(key(7), 0, 0).unwrap();
    assert_eq!(made.total_supply, 0);
    assert_eq!(made.max_supply, 0);
}

#[test]
fn initialize_refuses_supply_above_cap() {
    assert_eq!(initialize(key(7), 5001, 5000), Err(ErrorCode::InvalidCap));
    assert_eq!(initialize(key(7), 1, 0), Err(ErrorCode::InvalidCap));
    assert_eq!(initialize(key(7), u64::MAX, u64::MAX - 1), Err(ErrorCode::InvalidCap));
}

#[test]
fn transfer_moves_amount_and_reports_event() {
    let mut src = account(2, 100);
    let mut dst = account(3, 0);
    let done = transfer(&mut src, &mut dst, 50, key(2));
    assert_eq!(done, Ok(TransferEvent { from: key(2), to: key(3), amount: 50 }));
    assert_eq!(src, account(2, 50));
    assert_eq!(dst, account(3, 50));
}

#[test]
fn transfer_insufficient_funds_changes_nothing() {
    let mut src = account(2, 10);
    let mut dst = account(3, 4);
    let done = transfer(&mut src, &mut dst, 50, key(2));
    assert_eq!(done, Err(ErrorCode::InsufficientFunds));
    assert_eq!(src, account(2, 10));
    assert_eq!(dst, account(3, 4));
}

#[test]
fn transfer_by_stranger_is_unauthorized() {
    let mut src = account(2, 100);
    let mut dst = account(3, 0);
    let done = transfer(&mut src, &mut dst, 50, key(3));
    assert_eq!(done, Err(ErrorCode::Unauthorized));
    assert_eq!(src, account(2, 100));
    assert_eq!(dst, account(3, 0));
}

#[test]
fn transfer_checks_the_caller_before_the_funds() {
    let mut src = account(2, 10);
    let mut dst = account(3, 0);
    assert_eq!(transfer(&mut src, &mut dst, 50, key(9)), Err(ErrorCode::Unauthorized));
}

#[test]
fn transfer_checks_the_funds_before_the_room() {
    let mut src = account(2, 10);
    let mut dst = account(3, u64::MAX);
    assert_eq!(transfer(&mut src, &mut dst, 50, key(2)), Err(ErrorCode::InsufficientFunds));
}

#[test]
fn transfer_into_full_account_is_overflow() {
    let mut src = account(2, 100);
    let mut dst = account(3, u64::MAX - 49);
    let done = transfer(&mut src, &mut dst, 50, key(2));
    assert_eq!(done, Err(ErrorCode::ArithmeticOverflow));
    assert_eq!(src, account(2, 100));
    assert_eq!(dst, account(3, u64::MAX - 49));
}

#[test]
fn transfer_fills_account_to_the_last_unit() {
    let mut src = account(2, 100);
    let mut dst = account(3, u64::MAX - 50);
    let done = transfer(&mut src, &mut dst, 50, key(2));
    assert_eq!(done, Ok(TransferEvent { from: key(2), to: key(3), amount: 50 }));
    assert_eq!(src.balance, 50);
    assert_eq!(dst.balance, u64::MAX);
}

#[test]
fn transfer_of_whole_balance_empties_source() {
    let mut src = account(2, 100);
    let mut dst = account(3, 1);
    assert!(transfer(&mut src, &mut dst, 100, key(2)).is_ok());
    assert_eq!(src.balance, 0);
    assert_eq!(dst.balance, 101);
}

#[test]
fn transfer_of_nothing_changes_nothing_and_is_reported() {
    let mut src = account(2, 0);
    let mut dst = account(3, u64::MAX);
    let done = transfer(&mut src, &mut dst, 0, key(2));
    assert_eq!(done, Ok(TransferEvent { from: key(2), to: key(3), amount: 0 }));
    assert_eq!(src, account(2, 0));
    assert_eq!(dst, account(3, u64::MAX));
}

#[test]
fn transfer_between_accounts_of_one_owner() {
    let mut src = account(2, 8);
    let mut dst = account(2, 1);
    let done = transfer(&mut src, &mut dst, 3, key(2));
    assert_eq!(done, Ok(TransferEvent { from: key(2), to: key(2), amount: 3 }));
    assert_eq!(src.balance, 5);
    assert_eq!(dst.balance, 4);
}

#[test]
fn mint_by_stranger_is_unauthorized() {
    let mut ledger = token(1000, 5000);
    let mut recipient = account(3, 20);
    let done = mint(&mut ledger, &mut recipient, 100, key(2));
    assert_eq!(done, Err(ErrorCode::Unauthorized));
    assert_eq!(ledger, token(1000, 5000));
    assert_eq!(recipient, account(3, 20));
}

#[test]
fn mint_goes_by_the_mint_authority_not_the_administrator() {
    let mut ledger =
        Token { authority: key(1), total_supply: 0, mint_authority: key(4), max_supply: 10 };
    let mut recipient = account(3, 0);
    assert_eq!(mint(&mut ledger, &mut recipient, 1, key(1)), Err(ErrorCode::Unauthorized));
    assert_eq!(mint(&mut ledger, &mut recipient, 1, key(4)), Ok(()));
    assert_eq!(ledger.total_supply, 1);
    assert_eq!(recipient.balance, 1);
}

#[test]
fn mint_over_cap_is_refused() {
    let mut ledger = token(4950, 5000);
    let mut recipient = account(3, 20);
    let done = mint(&mut ledger, &mut recipient, 100, key(1));
    assert_eq!(done, Err(ErrorCode::MaxSupplyExceeded));
    assert_eq!(ledger, token(4950, 5000));
    assert_eq!(recipient, account(3, 20));
}

#[test]
fn mint_adds_to_supply_and_recipient() {
    let mut ledger = token(1000, 5000);
    let mut recipient = account(3, 20);
    assert_eq!(mint(&mut ledger, &mut recipient, 100, key(1)), Ok(()));
    assert_eq!(ledger, token(1100, 5000));
    assert_eq!(recipient, account(3, 120));
}

#[test]
fn mint_may_reach_the_cap_exactly() {
    let mut ledger = token(4950, 5000);
    let mut recipient = account(3, 0);
    assert_eq!(mint(&mut ledger, &mut recipient, 50, key(1)), Ok(()));
    assert_eq!(ledger.total_supply, 5000);
    assert_eq!(mint(&mut ledger, &mut recipient, 1, key(1)), Err(ErrorCode::MaxSupplyExceeded));
    assert_eq!(mint(&mut ledger, &mut recipient, 0, key(1)), Ok(()));
    assert_eq!(ledger.total_supply, 5000);
    assert_eq!(recipient.balance, 50);
}

#[test]
fn mint_past_64_bits_is_overflow_not_cap() {
    let mut ledger = token(u64::MAX - 5, u64::MAX);
    let mut recipient = account(3, 0);
    let done = mint(&mut ledger, &mut recipient, 6, key(1));
    assert_eq!(done, Err(ErrorCode::ArithmeticOverflow));
    assert_eq!(ledger, token(u64::MAX - 5, u64::MAX));
    assert_eq!(recipient, account(3, 0));
    let mut capped = token(10, 20);
    assert_eq!(
        mint(&mut capped, &mut recipient, u64::MAX, key(1)),
        Err(ErrorCode::ArithmeticOverflow)
    );
    assert_eq!(capped, token(10, 20));
}

#[test]
fn mint_into_full_account_is_overflow() {
    let mut ledger = token(10, 5000);
    let mut recipient = account(3, u64::MAX - 99);
    let done = mint(&mut ledger, &mut recipient, 100, key(1));
    assert_eq!(done, Err(ErrorCode::ArithmeticOverflow));
    assert_eq!(ledger, token(10, 5000));
    assert_eq!(recipient, account(3, u64::MAX - 99));
}

#[test]
fn mint_checks_the_cap_before_the_room() {
    let mut ledger = token(10, 20);
    let mut recipient = account(3, u64::MAX);
    assert_eq!(mint(&mut ledger, &mut recipient, 15, key(1)), Err(ErrorCode::MaxSupplyExceeded));
}

#[test]
fn mint_checks_the_caller_before_the_arithmetic() {
    let mut ledger = token(u64::MAX, u64::MAX);
    let mut recipient = account(3, u64::MAX);
    assert_eq!(mint(&mut ledger, &mut recipient, 1, key(2)), Err(ErrorCode::Unauthorized));
}

#[test]
fn burn_reduces_balance_and_supply() {
    let mut holder = account(2, 30);
    let mut ledger = token(1000, 5000);
    assert_eq!(burn(&mut holder, &mut ledger, 30, key(2)), Ok(()));
    assert_eq!(holder, account(2, 0));
    assert_eq!(ledger, token(970, 5000));
}

#[test]
fn burn_more_than_held_changes_nothing() {
    let mut holder = account(2, 30);
    let mut ledger = token(1000, 5000);
    let done = burn(&mut holder, &mut ledger, 31, key(2));
    assert_eq!(done, Err(ErrorCode::InsufficientFunds));
    assert_eq!(holder, account(2, 30));
    assert_eq!(ledger, token(1000, 5000));
}

#[test]
fn burn_by_stranger_is_unauthorized() {
    let mut holder = account(2, 30);
    let mut ledger = token(1000, 5000);
    let done = burn(&mut holder, &mut ledger, 30, key(1));
    assert_eq!(done, Err(ErrorCode::Unauthorized));
    assert_eq!(holder, account(2, 30));
    assert_eq!(ledger, token(1000, 5000));
    assert_eq!(burn(&mut holder, &mut ledger, 31, key(1)), Err(ErrorCode::Unauthorized));
}

#[test]
fn burn_more_than_the_supply_is_overflow() {
    let mut holder = account(2, 30);
    let mut ledger = token(20, 5000);
    let done = burn(&mut holder, &mut ledger, 21, key(2));
    assert_eq!(done, Err(ErrorCode::ArithmeticOverflow));
    assert_eq!(holder, account(2, 30));
    assert_eq!(ledger, token(20, 5000));
    assert_eq!(burn(&mut holder, &mut ledger, 20, key(2)), Ok(()));
    assert_eq!(holder.balance, 10);
    assert_eq!(ledger.total_supply, 0);
}

#[test]
fn burn_of_nothing_changes_nothing() {
    let mut holder = account(2, 0);
    let mut ledger = token(0, 0);
    assert_eq!(burn(&mut holder, &mut ledger, 0, key(2)), Ok(()));
    assert_eq!(holder, account(2, 0));
    assert_eq!(ledger, token(0, 0));
}

#[test]
fn identities_are_compared_byte_for_byte() {
    let mut bytes = [5u8; 32];
    let owner = Pubkey::new_from_array(bytes);
    bytes[31] = 6;
    let near = Pubkey::new_from_array(bytes);
    bytes[31] = 5;
    let again = Pubkey::new_from_array(bytes);

    let mut src = TokenAccount { owner, balance: 9 };
    let mut dst = account(3, 0);
    assert_eq!(transfer(&mut src, &mut dst, 1, near), Err(ErrorCode::Unauthorized));
    assert_eq!(burn(&mut src, &mut token(9, 9), 1, near), Err(ErrorCode::Unauthorized));
    assert!(transfer(&mut src, &mut dst, 1, again).is_ok());
    assert_eq!(src.balance, 8);
    assert_eq!(dst.balance, 1);
}
