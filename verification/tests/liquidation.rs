//! Liquidation timing and idempotence.

use credlend::errors::ErrorCode;
use credlend::protocol::{LendingProtocol, NATIVE_CURRENCY};

const ADMIN: u64 = 1;
const TREASURY: u64 = 2;
const USDT: u64 = 7;
const USDC: u64 = 8;
const BORROWER: u64 = 42;

/// A protocol with an open loan: collateral 2000, principal 10000,
/// duration 86400 requested at time 1000, so due at 87400.
fn setup_with_loan() -> LendingProtocol {
    let mut p = LendingProtocol::new();
    p.initialize(ADMIN, TREASURY, USDT, USDC, 1000, 5000, 86400, 2592000)
        .unwrap();
    p.whitelist_user(ADMIN, BORROWER).unwrap();
    p.credit_wallet(ADMIN, NATIVE_CURRENCY, 100000).unwrap();
    p.credit_wallet(ADMIN, USDT, 100000).unwrap();
    p.deposit_to_treasury(ADMIN, 100000, USDT).unwrap();
    p.credit_wallet(BORROWER, USDT, 2000).unwrap();
    p.request_loan(BORROWER, 2000, 10000, 86400, USDT, 1000).unwrap();
    p
}

#[test]
fn liquidation_at_due_time_is_rejected() {
    let mut p = setup_with_loan();
    let due = p.get_loan(BORROWER).unwrap().loan_due_time;
    assert_eq!(due, 87400);
    let r = p.liquidate_loan(BORROWER, due);
    assert_eq!(r, Err(ErrorCode::LoanNotDueForLiquidation));
    // and the same one second earlier
    let r = p.liquidate_loan(BORROWER, due - 1);
    assert_eq!(r, Err(ErrorCode::LoanNotDueForLiquidation));
    // nothing was seized
    assert!(p.get_loan(BORROWER).is_some());
    assert_eq!(p.get_collateral_vault(BORROWER).unwrap().balance, 2000);
}

#[test]
fn liquidation_one_second_after_due_succeeds() {
    let mut p = setup_with_loan();
    let due = p.get_loan(BORROWER).unwrap().loan_due_time;
    let pool_before = p.treasury_balance(USDT);
    let ev = p.liquidate_loan(BORROWER, due + 1).unwrap();
    assert_eq!(ev.borrower, BORROWER);
    assert_eq!(ev.collateral_liquidated_amount, 2000);
    // the whole vault balance moved into the treasury
    assert_eq!(p.treasury_balance(USDT), pool_before + 2000);
    // both records are retired: the borrower is back to no-loan
    assert!(p.get_loan(BORROWER).is_none());
    assert!(p.get_collateral_vault(BORROWER).is_none());
}

#[test]
fn second_liquidation_finds_no_loan() {
    let mut p = setup_with_loan();
    let due = p.get_loan(BORROWER).unwrap().loan_due_time;
    p.liquidate_loan(BORROWER, due + 1).unwrap();
    let pool_after_first = p.treasury_balance(USDT);
    // a second call must fail rather than seize twice
    let r = p.liquidate_loan(BORROWER, due + 2);
    assert_eq!(r, Err(ErrorCode::NotFound));
    assert_eq!(p.treasury_balance(USDT), pool_after_first);
}

#[test]
fn liquidated_borrower_may_borrow_again() {
    let mut p = setup_with_loan();
    let due = p.get_loan(BORROWER).unwrap().loan_due_time;
    p.liquidate_loan(BORROWER, due + 1).unwrap();
    p.credit_wallet(BORROWER, USDT, 500).unwrap();
    let r = p.request_loan(BORROWER, 500, 1000, 86400, USDT, due + 2);
    assert!(r.is_ok());
}

#[test]
fn liquidation_of_unknown_borrower_is_not_found() {
    let mut p = setup_with_loan();
    assert_eq!(p.liquidate_loan(77, 999999), Err(ErrorCode::NotFound));
}
