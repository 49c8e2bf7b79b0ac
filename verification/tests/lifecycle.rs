//! Loan origination and repayment, end to end.

use credlend::errors::ErrorCode;
use credlend::protocol::{LendingProtocol, NATIVE_CURRENCY};

const ADMIN: u64 = 1;
const TREASURY: u64 = 2;
const USDT: u64 = 7;
const USDC: u64 = 8;
const BORROWER: u64 = 42;

/// A funded, initialized protocol with a whitelisted borrower: rate
/// 1000 bps, duration bounds [86400, 2592000], 100000 units of USDT in
/// the treasury and 2000 units of USDT in the borrower's wallet.
fn funded_setup() -> LendingProtocol {
    let mut p = LendingProtocol::new();
    p.initialize(ADMIN, TREASURY, USDT, USDC, 1000, 5000, 86400, 2592000)
        .unwrap();
    p.whitelist_user(ADMIN, BORROWER).unwrap();
    p.credit_wallet(ADMIN, NATIVE_CURRENCY, 100000).unwrap();
    p.credit_wallet(ADMIN, USDT, 100000).unwrap();
    p.deposit_to_treasury(ADMIN, 100000, USDT).unwrap();
    p.credit_wallet(BORROWER, USDT, 2000).unwrap();
    p
}

#[test]
fn end_to_end_borrow_and_repay() {
    let mut p = funded_setup();
    assert_eq!(p.treasury_balance(USDT), 100000);

    let now = 1000;
    let ev = p.request_loan(BORROWER, 2000, 10000, 604800, USDT, now).unwrap();
    assert_eq!(ev.borrower, BORROWER);
    assert_eq!(ev.collateral_amount, 2000);
    assert_eq!(ev.loan_amount, 10000);
    assert_eq!(ev.due_time, now + 604800);

    let loan = p.get_loan(BORROWER).unwrap();
    assert_eq!(loan.repayment_amount, 11000);
    assert_eq!(loan.loan_due_time, now + 604800);
    assert_eq!(loan.collateral_locked_usdt_amount, 2000);
    assert!(loan.is_active);
    let vault = p.get_collateral_vault(BORROWER).unwrap();
    assert_eq!(vault.balance, 2000);

    // collateral out, principal in
    assert_eq!(p.wallet_balance(BORROWER, USDT), 10000);
    assert_eq!(p.treasury_balance(USDT), 90000);

    // top up so exactly 11000 can be repaid
    p.credit_wallet(BORROWER, USDT, 1000).unwrap();
    let ev = p.repay_loan(BORROWER).unwrap();
    assert_eq!(ev.repayment_amount, 11000);
    assert_eq!(ev.collateral_released_amount, 2000);

    // both records gone, collateral back, pool grew by the interest
    assert!(p.get_loan(BORROWER).is_none());
    assert!(p.get_collateral_vault(BORROWER).is_none());
    assert_eq!(p.wallet_balance(BORROWER, USDT), 2000);
    assert_eq!(p.treasury_balance(USDT), 101000);
}

#[test]
fn repayment_amount_is_principal_plus_interest() {
    let mut p = LendingProtocol::new();
    // 5% interest: principal 1000 owes 1050
    p.initialize(ADMIN, TREASURY, USDT, USDC, 500, 5000, 86400, 2592000)
        .unwrap();
    p.whitelist_user(ADMIN, BORROWER).unwrap();
    p.credit_wallet(ADMIN, NATIVE_CURRENCY, 5000).unwrap();
    p.credit_wallet(ADMIN, USDT, 5000).unwrap();
    p.deposit_to_treasury(ADMIN, 5000, USDT).unwrap();
    p.credit_wallet(BORROWER, USDT, 100).unwrap();
    p.request_loan(BORROWER, 100, 1000, 86400, USDT, 0).unwrap();
    assert_eq!(p.get_loan(BORROWER).unwrap().repayment_amount, 1050);
}

#[test]
fn second_loan_is_a_creation_conflict() {
    let mut p = funded_setup();
    p.request_loan(BORROWER, 1000, 5000, 604800, USDT, 1000).unwrap();
    let r = p.request_loan(BORROWER, 500, 1000, 604800, USDT, 2000);
    assert_eq!(r, Err(ErrorCode::LoanAlreadyActive));
    // nothing changed: still exactly one loan with the first terms
    assert_eq!(p.get_loan(BORROWER).unwrap().loan_amount_borrowed, 5000);
}

#[test]
fn reborrow_after_repay_succeeds() {
    let mut p = funded_setup();
    p.request_loan(BORROWER, 1000, 500, 604800, USDT, 1000).unwrap();
    p.repay_loan(BORROWER).unwrap();
    assert!(p.get_loan(BORROWER).is_none());
    assert!(p.get_collateral_vault(BORROWER).is_none());
    let r = p.request_loan(BORROWER, 1000, 500, 604800, USDT, 2000);
    assert!(r.is_ok());
}

#[test]
fn duration_out_of_bounds_is_rejected_without_effect() {
    let mut p = funded_setup();
    let r = p.request_loan(BORROWER, 1000, 5000, 100, USDT, 1000);
    assert_eq!(r, Err(ErrorCode::InvalidLoanDuration));
    let r = p.request_loan(BORROWER, 1000, 5000, 2592001, USDT, 1000);
    assert_eq!(r, Err(ErrorCode::InvalidLoanDuration));
    // no records, no balance movement
    assert!(p.get_loan(BORROWER).is_none());
    assert!(p.get_collateral_vault(BORROWER).is_none());
    assert_eq!(p.wallet_balance(BORROWER, USDT), 2000);
    assert_eq!(p.treasury_balance(USDT), 100000);
}

#[test]
fn unsupported_mint_is_rejected() {
    let mut p = funded_setup();
    let r = p.request_loan(BORROWER, 1000, 5000, 604800, 99, 1000);
    assert_eq!(r, Err(ErrorCode::InvalidLoanMint));
}

#[test]
fn usdc_is_an_accepted_mint() {
    let mut p = funded_setup();
    // fund the pool in USDC too
    p.credit_wallet(ADMIN, NATIVE_CURRENCY, 5000).unwrap();
    p.credit_wallet(ADMIN, USDC, 5000).unwrap();
    p.deposit_to_treasury(ADMIN, 5000, USDC).unwrap();
    let ev = p.request_loan(BORROWER, 1000, 3000, 604800, USDC, 1000).unwrap();
    assert_eq!(ev.loan_mint, USDC);
    // collateral still moves in USDT, the loan in USDC
    assert_eq!(p.wallet_balance(BORROWER, USDT), 1000);
    assert_eq!(p.wallet_balance(BORROWER, USDC), 3000);
}

#[test]
fn non_whitelisted_borrower_is_rejected() {
    let mut p = funded_setup();
    p.credit_wallet(77, USDT, 2000).unwrap();
    let r = p.request_loan(77, 1000, 500, 604800, USDT, 1000);
    assert_eq!(r, Err(ErrorCode::UserNotWhitelisted));
}

#[test]
fn collateral_shortfall_is_rejected() {
    let mut p = funded_setup();
    let r = p.request_loan(BORROWER, 3000, 500, 604800, USDT, 1000);
    assert_eq!(r, Err(ErrorCode::InsufficientFunds));
    assert_eq!(p.wallet_balance(BORROWER, USDT), 2000);
}

#[test]
fn pool_shortfall_is_rejected() {
    let mut p = funded_setup();
    let r = p.request_loan(BORROWER, 1000, 200000, 604800, USDT, 1000);
    assert_eq!(r, Err(ErrorCode::InsufficientFunds));
}

#[test]
fn repay_without_loan_is_not_found() {
    let mut p = funded_setup();
    assert_eq!(p.repay_loan(BORROWER), Err(ErrorCode::NotFound));
}

#[test]
fn repay_shortfall_leaves_everything_in_place() {
    let mut p = funded_setup();
    p.request_loan(BORROWER, 2000, 10000, 604800, USDT, 1000).unwrap();
    // wallet holds 10000, the debt is 11000
    let r = p.repay_loan(BORROWER);
    assert_eq!(r, Err(ErrorCode::InsufficientFunds));
    assert!(p.get_loan(BORROWER).is_some());
    assert!(p.get_collateral_vault(BORROWER).is_some());
    assert_eq!(p.wallet_balance(BORROWER, USDT), 10000);
}

#[test]
fn request_before_initialization_is_rejected() {
    let mut p = LendingProtocol::new();
    let r = p.request_loan(BORROWER, 1000, 500, 604800, USDT, 1000);
    assert_eq!(r, Err(ErrorCode::NotInitialized));
}
