//! Laws of the state machine, proved once and for all states.
//!
//! Each proof function here states a guarantee that relates several
//! operations, over the same transition specifications
//! ([`LendingProtocol::request_loan_check`] and its siblings) that the
//! operations' own contracts are written against.  Together with the
//! operations' postconditions — success exactly when the check passes,
//! and no state change at all on an error — these pin the behaviours
//! down for every state and every input, not just the tested ones.

use vstd::prelude::*;
use crate::errors::ErrorCode;
use crate::protocol::LendingProtocol;

verus! {

/// A loan request can only succeed with a duration inside the configured
/// bounds — so only under a configuration whose bounds admit anything at
/// all, that is one with `min_loan_duration_sec <= max_loan_duration_sec`.
pub proof fn lemma_request_loan_needs_valid_duration(
    pre: LendingProtocol,
    borrower: u64,
    collateral_amount: u64,
    loan_amount: u64,
    loan_duration_sec: i64,
    requested_loan_mint: u64,
    now: i64,
)
    requires
        LendingProtocol::request_loan_check(
            pre,
            borrower,
            collateral_amount,
            loan_amount,
            loan_duration_sec,
            requested_loan_mint,
            now,
        ) is None,
    ensures
        pre.is_initialized(),
        LendingProtocol::duration_in_bounds(pre.config->Some_0, loan_duration_sec),
        pre.config->Some_0.min_loan_duration_sec <= pre.config->Some_0.max_loan_duration_sec,
{
}

/// A duration outside the configured bounds is never originated: the
/// request is rejected — with `InvalidLoanDuration` once the gating
/// checks ahead of it pass — and, by `request_loan`'s postcondition on
/// errors, no record is created and no balance moves.
pub proof fn lemma_request_loan_rejects_bad_duration(
    pre: LendingProtocol,
    borrower: u64,
    collateral_amount: u64,
    loan_amount: u64,
    loan_duration_sec: i64,
    requested_loan_mint: u64,
    now: i64,
)
    requires
        pre.is_initialized(),
        !LendingProtocol::duration_in_bounds(pre.config->Some_0, loan_duration_sec),
    ensures
        LendingProtocol::request_loan_check(
            pre,
            borrower,
            collateral_amount,
            loan_amount,
            loan_duration_sec,
            requested_loan_mint,
            now,
        ) is Some,
        pre.spec_is_whitelisted(borrower) && !pre.has_loan(borrower)
            ==> LendingProtocol::request_loan_check(
            pre,
            borrower,
            collateral_amount,
            loan_amount,
            loan_duration_sec,
            requested_loan_mint,
            now,
        ) == Some(ErrorCode::InvalidLoanDuration),
{
}

/// A borrower with an open loan cannot originate a second one: whatever
/// the other arguments, the request is a creation conflict.
pub proof fn lemma_no_second_loan(
    pre: LendingProtocol,
    borrower: u64,
    collateral_amount: u64,
    loan_amount: u64,
    loan_duration_sec: i64,
    requested_loan_mint: u64,
    now: i64,
)
    requires
        pre.wf(),
        pre.has_loan(borrower),
        pre.spec_is_whitelisted(borrower),
    ensures
        LendingProtocol::request_loan_check(
            pre,
            borrower,
            collateral_amount,
            loan_amount,
            loan_duration_sec,
            requested_loan_mint,
            now,
        ) == Some(ErrorCode::LoanAlreadyActive),
{
}

/// Once a borrower's loan is gone — as `repay_loan`'s postcondition
/// leaves it — a fresh origination is owed whenever its own conditions
/// hold: admission, bounds, representable amounts and funded balances.
/// Repayment therefore restores the borrower's full no-loan state.
pub proof fn lemma_reborrow_after_clearing(
    post: LendingProtocol,
    borrower: u64,
    collateral_amount: u64,
    loan_amount: u64,
    loan_duration_sec: i64,
    requested_loan_mint: u64,
    now: i64,
)
    requires
        post.is_initialized(),
        !post.has_loan(borrower),
        post.spec_is_whitelisted(borrower),
        LendingProtocol::duration_in_bounds(post.config->Some_0, loan_duration_sec),
        LendingProtocol::mint_accepted(post.config->Some_0, requested_loan_mint),
        LendingProtocol::spec_repayment_amount(
            loan_amount,
            post.config->Some_0.interest_rate_bps,
        ) <= u64::MAX,
        i64::MIN <= now + loan_duration_sec <= i64::MAX,
        post.wallets.spec_balance(borrower, post.config->Some_0.usdt_mint) >= collateral_amount,
        post.treasury.spec_balance(requested_loan_mint) >= loan_amount,
        post.wallets.spec_balance(borrower, requested_loan_mint) - (
        if requested_loan_mint == post.config->Some_0.usdt_mint {
            collateral_amount as int
        } else {
            0
        }) + loan_amount <= u64::MAX,
    ensures
        LendingProtocol::request_loan_check(
            post,
            borrower,
            collateral_amount,
            loan_amount,
            loan_duration_sec,
            requested_loan_mint,
            now,
        ) is None,
{
}

/// Liquidation is permitted only strictly after the due time: at the due
/// time itself, or any moment before it, the call is rejected as not yet
/// due, and by `liquidate_loan`'s postcondition on errors nothing
/// changes.
pub proof fn lemma_liquidation_not_before_due(pre: LendingProtocol, borrower: u64, now: i64)
    requires
        pre.wf(),
        pre.has_loan(borrower),
        now <= pre.loans@[borrower].loan_due_time,
    ensures
        LendingProtocol::liquidate_loan_check(pre, borrower, now) == Some(
            ErrorCode::LoanNotDueForLiquidation,
        ),
{
}

/// Strictly after the due time, liquidation is owed: the only thing that
/// can still stand in its way is a seizure the treasury balance could
/// not hold.
pub proof fn lemma_liquidation_after_due(pre: LendingProtocol, borrower: u64, now: i64)
    requires
        pre.wf(),
        pre.has_loan(borrower),
        now > pre.loans@[borrower].loan_due_time,
        pre.treasury.spec_balance(pre.config->Some_0.usdt_mint)
            + pre.collateral_vaults@[borrower].balance <= u64::MAX,
    ensures
        LendingProtocol::liquidate_loan_check(pre, borrower, now) is None,
{
}

/// Liquidation cannot be repeated: it retires the loan record, so a
/// second call for the same borrower — at any later time — finds no loan
/// and is rejected, rather than seizing collateral twice.
pub proof fn lemma_no_double_liquidation(pre: LendingProtocol, borrower: u64, now: i64)
    requires
        pre.is_initialized(),
        !pre.has_loan(borrower),
    ensures
        LendingProtocol::liquidate_loan_check(pre, borrower, now) == Some(ErrorCode::NotFound),
{
}

/// Holding a registry admin entry confers no authority: any caller other
/// than the founding admin is turned away from both `update_config` and
/// `add_admin` — the premises say nothing about the admin registry, so
/// the conclusion holds whether or not the caller is in it.
pub proof fn lemma_admin_entry_confers_no_authority(
    pre: LendingProtocol,
    caller: u64,
    new_admin_key: u64,
)
    requires
        pre.is_initialized(),
        caller != pre.config->Some_0.initial_admin,
    ensures
        LendingProtocol::update_config_check(pre, caller) == Some(ErrorCode::Unauthorized),
        LendingProtocol::add_admin_check(pre, caller, new_admin_key) == Some(
            ErrorCode::Unauthorized,
        ),
{
}

} // verus!
