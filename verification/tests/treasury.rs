//! Treasury deposits and withdrawals: two transfer legs, all or nothing.

use credlend::errors::ErrorCode;
use credlend::protocol::{LendingProtocol, NATIVE_CURRENCY};

const ADMIN: u64 = 1;
const TREASURY: u64 = 2;
const USDT: u64 = 7;
const USDC: u64 = 8;

fn initialized() -> LendingProtocol {
    let mut p = LendingProtocol::new();
    p.initialize(ADMIN, TREASURY, USDT, USDC, 1000, 5000, 86400, 2592000)
        .unwrap();
    p
}

#[test]
fn deposit_moves_both_legs() {
    let mut p = initialized();
    p.credit_wallet(ADMIN, NATIVE_CURRENCY, 800).unwrap();
    p.credit_wallet(ADMIN, USDT, 500).unwrap();
    let ev = p.deposit_to_treasury(ADMIN, 500, USDT).unwrap();
    assert_eq!(ev.token_mint, USDT);
    assert_eq!(ev.amount, 500);
    assert_eq!(ev.treasury_vault, TREASURY);
    assert_eq!(p.treasury_balance(USDT), 500);
    assert_eq!(p.treasury_balance(NATIVE_CURRENCY), 500);
    assert_eq!(p.wallet_balance(ADMIN, USDT), 0);
    assert_eq!(p.wallet_balance(ADMIN, NATIVE_CURRENCY), 300);
}

#[test]
fn deposit_fails_whole_when_one_leg_lacks_funds() {
    let mut p = initialized();
    // native leg is covered, the token leg is not
    p.credit_wallet(ADMIN, NATIVE_CURRENCY, 800).unwrap();
    p.credit_wallet(ADMIN, USDT, 100).unwrap();
    let r = p.deposit_to_treasury(ADMIN, 500, USDT);
    assert_eq!(r, Err(ErrorCode::InsufficientFunds));
    // neither leg moved
    assert_eq!(p.wallet_balance(ADMIN, NATIVE_CURRENCY), 800);
    assert_eq!(p.wallet_balance(ADMIN, USDT), 100);
    assert_eq!(p.treasury_balance(USDT), 0);
    assert_eq!(p.treasury_balance(NATIVE_CURRENCY), 0);
}

#[test]
fn withdraw_is_the_inverse_of_deposit() {
    let mut p = initialized();
    p.credit_wallet(ADMIN, NATIVE_CURRENCY, 800).unwrap();
    p.credit_wallet(ADMIN, USDT, 500).unwrap();
    p.deposit_to_treasury(ADMIN, 500, USDT).unwrap();
    let ev = p.withdraw_from_treasury(ADMIN, 500, USDT).unwrap();
    assert_eq!(ev.amount, 500);
    assert_eq!(p.treasury_balance(USDT), 0);
    assert_eq!(p.treasury_balance(NATIVE_CURRENCY), 0);
    assert_eq!(p.wallet_balance(ADMIN, USDT), 500);
    assert_eq!(p.wallet_balance(ADMIN, NATIVE_CURRENCY), 800);
}

#[test]
fn withdraw_beyond_the_pool_is_rejected() {
    let mut p = initialized();
    p.credit_wallet(ADMIN, NATIVE_CURRENCY, 800).unwrap();
    p.credit_wallet(ADMIN, USDT, 500).unwrap();
    p.deposit_to_treasury(ADMIN, 500, USDT).unwrap();
    let r = p.withdraw_from_treasury(ADMIN, 501, USDT);
    assert_eq!(r, Err(ErrorCode::InsufficientFunds));
    assert_eq!(p.treasury_balance(USDT), 500);
}

#[test]
fn deposit_before_initialization_is_rejected() {
    let mut p = LendingProtocol::new();
    assert_eq!(
        p.deposit_to_treasury(ADMIN, 1, USDT),
        Err(ErrorCode::NotInitialized)
    );
    assert_eq!(
        p.withdraw_from_treasury(ADMIN, 1, USDT),
        Err(ErrorCode::NotInitialized)
    );
}

#[test]
fn wallet_credit_overflow_is_rejected() {
    let mut p = initialized();
    p.credit_wallet(ADMIN, USDT, u64::MAX).unwrap();
    let r = p.credit_wallet(ADMIN, USDT, 1);
    assert_eq!(r, Err(ErrorCode::MathOverflow));
    assert_eq!(p.wallet_balance(ADMIN, USDT), u64::MAX);
}

#[test]
fn deposit_overflowing_the_pool_is_rejected_without_effect() {
    let mut p = initialized();
    // fill the USDT pool to the brim
    p.credit_wallet(ADMIN, NATIVE_CURRENCY, u64::MAX).unwrap();
    p.credit_wallet(ADMIN, USDT, u64::MAX).unwrap();
    p.deposit_to_treasury(ADMIN, u64::MAX, USDT).unwrap();
    // a further deposit would overflow the USDT pool
    p.credit_wallet(ADMIN, NATIVE_CURRENCY, 10).unwrap();
    p.credit_wallet(ADMIN, USDT, 10).unwrap();
    let r = p.deposit_to_treasury(ADMIN, 1, USDT);
    assert_eq!(r, Err(ErrorCode::MathOverflow));
    assert_eq!(p.treasury_balance(USDT), u64::MAX);
    assert_eq!(p.wallet_balance(ADMIN, USDT), 10);
}

#[test]
fn depositing_the_native_currency_moves_it_twice() {
    let mut p = initialized();
    p.credit_wallet(ADMIN, NATIVE_CURRENCY, 1000).unwrap();
    let ev = p.deposit_to_treasury(ADMIN, 400, NATIVE_CURRENCY).unwrap();
    assert_eq!(ev.amount, 400);
    // both legs are native: 800 left the wallet
    assert_eq!(p.wallet_balance(ADMIN, NATIVE_CURRENCY), 200);
    assert_eq!(p.treasury_balance(NATIVE_CURRENCY), 800);
}
