use coralswap_pair::errors::PairError;
use coralswap_pair::flash_loan::{
    compute_flash_fee, lock_on_exit, plan_flash_loan, settle_flash_loan, take_lock, FlashLoanPlan,
    PairReserves,
};

// ---------------------------------------------------------------------------
// Fee overflow returns FeeOverflow, not i128::MAX
// ---------------------------------------------------------------------------

#[test]
fn test_compute_flash_fee_overflow_returns_error() {
    // i128::MAX * any positive bps overflows — should return FeeOverflow.
    let result = compute_flash_fee(i128::MAX, 30);
    assert_eq!(result, Err(PairError::FeeOverflow), "overflow must return FeeOverflow");
}

#[test]
fn test_compute_flash_fee_normal_amount() {
    // Normal amount should succeed and return a positive fee.
    let result = compute_flash_fee(10_000, 30);
    assert!(result.is_ok(), "normal amount must succeed");
    assert!(result.unwrap() > 0, "fee must be positive");
}

// ---------------------------------------------------------------------------
// fee_bps validation (cap at 10_000)
// ---------------------------------------------------------------------------

#[test]
fn test_compute_flash_fee_cap_boundary_valid() {
    // fee_bps == 10_000 (100%) is allowed as edge case
    let result = compute_flash_fee(10_000, 10_000);
    assert!(result.is_ok(), "fee_bps == 10_000 must be allowed");
    assert_eq!(result.unwrap(), 10_000, "100% fee should equal principal");
}

#[test]
fn test_compute_flash_fee_cap_boundary_invalid() {
    // fee_bps > 10_000 returns FlashLoanFeeTooHigh error
    let result = compute_flash_fee(10_000, 10_001);
    assert_eq!(
        result,
        Err(PairError::FlashLoanFeeTooHigh),
        "fee_bps > 10_000 must return FlashLoanFeeTooHigh"
    );
}

#[test]
fn test_compute_flash_fee_excessive_fee() {
    // fee_bps = 15000 (150%) should be rejected
    let result = compute_flash_fee(10_000, 15_000);
    assert_eq!(
        result,
        Err(PairError::FlashLoanFeeTooHigh),
        "fee_bps = 15000 must return FlashLoanFeeTooHigh"
    );
}

// ---------------------------------------------------------------------------
// The fee schedule
// ---------------------------------------------------------------------------

#[test]
fn fee_is_exact_at_the_pool_rate() {
    assert_eq!(compute_flash_fee(10_000, 30), Ok(30));
    assert_eq!(compute_flash_fee(1_000_000, 25), Ok(2_500));
    // 12_345 * 30 / 10_000 = 37.035, rounded toward zero
    assert_eq!(compute_flash_fee(12_345, 30), Ok(37));
}

#[test]
fn fee_floor_applies_below_five_bps() {
    assert_eq!(compute_flash_fee(100_000, 0), Ok(50));
    assert_eq!(compute_flash_fee(100_000, 4), Ok(50));
    assert_eq!(compute_flash_fee(100_000, 5), Ok(50));
    assert_eq!(compute_flash_fee(100_000, 6), Ok(60));
}

#[test]
fn fee_is_at_least_one_stroop() {
    assert_eq!(compute_flash_fee(1, 30), Ok(1));
    assert_eq!(compute_flash_fee(0, 30), Ok(1));
    // a negative principal rounds toward zero and is then raised to the minimum
    assert_eq!(compute_flash_fee(-10_000, 30), Ok(1));
}

#[test]
fn fee_never_exceeds_a_positive_principal() {
    for amount in [1i128, 2, 7, 9_999, 10_000, 10_001, 123_456_789] {
        let fee = compute_flash_fee(amount, 10_000).unwrap();
        assert!(1 <= fee && fee <= amount);
    }
}

#[test]
fn fee_overflow_boundary() {
    let largest = i128::MAX / 30;
    assert_eq!(compute_flash_fee(largest, 30), Ok(largest * 30 / 10_000));
    assert_eq!(compute_flash_fee(largest + 1, 30), Err(PairError::FeeOverflow));
    assert_eq!(compute_flash_fee(i128::MIN, 30), Err(PairError::FeeOverflow));
    // the rate is validated before the product is computed
    assert_eq!(compute_flash_fee(i128::MAX, 10_001), Err(PairError::FlashLoanFeeTooHigh));
}

// ---------------------------------------------------------------------------
// Pre-flight checks
// ---------------------------------------------------------------------------

fn reserves(a: i128, b: i128) -> PairReserves {
    PairReserves { reserve_a: a, reserve_b: b, k_last: a * b }
}

#[test]
fn plan_rejects_large_payload() {
    let r = plan_flash_loan(257, 10, 0, Some(reserves(1_000, 1_000)), false, None);
    assert_eq!(r, Err(PairError::FlashPayloadTooLarge));
    let r = plan_flash_loan(256, 10, 0, Some(reserves(1_000, 1_000)), false, None);
    assert!(r.is_ok());
}

#[test]
fn plan_rejects_bad_amounts() {
    let s = Some(reserves(1_000, 1_000));
    assert_eq!(plan_flash_loan(0, 0, 0, s, false, None), Err(PairError::InsufficientInputAmount));
    assert_eq!(plan_flash_loan(0, -1, 5, s, false, None), Err(PairError::InsufficientInputAmount));
    assert_eq!(plan_flash_loan(0, 5, -1, s, false, None), Err(PairError::InsufficientInputAmount));
}

#[test]
fn plan_rejects_uninitialized_pair() {
    assert_eq!(plan_flash_loan(0, 10, 0, None, false, None), Err(PairError::NotInitialized));
}

#[test]
fn plan_rejects_amounts_above_reserves() {
    let s = Some(reserves(1_000, 500));
    assert_eq!(plan_flash_loan(0, 1_001, 0, s, false, None), Err(PairError::InsufficientLiquidity));
    assert_eq!(plan_flash_loan(0, 0, 501, s, false, None), Err(PairError::InsufficientLiquidity));
}

#[test]
fn plan_rejects_overflowing_invariant() {
    let s = Some(reserves(1, 1));
    let big = PairReserves { reserve_a: i128::MAX, reserve_b: 2, k_last: 0 };
    assert!(plan_flash_loan(0, 1, 0, s, false, None).is_ok());
    assert_eq!(plan_flash_loan(0, 1, 0, Some(big), false, None), Err(PairError::Overflow));
}

#[test]
fn plan_rejects_reentrancy() {
    let s = Some(reserves(1_000, 1_000));
    assert_eq!(plan_flash_loan(0, 10, 0, s, true, None), Err(PairError::Locked));
}

#[test]
fn plan_rejects_too_high_pool_fee() {
    let s = Some(reserves(1_000, 1_000));
    assert_eq!(
        plan_flash_loan(0, 10, 0, s, false, Some(10_001)),
        Err(PairError::FlashLoanFeeTooHigh)
    );
}

#[test]
fn plan_computes_fees_of_borrowed_tokens_only() {
    let s = Some(reserves(1_000_000, 2_000_000));
    let plan = plan_flash_loan(5, 100_000, 0, s, false, Some(30)).unwrap();
    assert_eq!(
        plan,
        FlashLoanPlan {
            amount_a: 100_000,
            amount_b: 0,
            fee_a: 300,
            fee_b: 0,
            pool_fee_bps: 30,
            pre_k: 2_000_000_000_000,
        }
    );
    // without fee state the floor of 5 bps applies
    let plan = plan_flash_loan(5, 0, 200_000, s, false, None).unwrap();
    assert_eq!(plan.fee_a, 0);
    assert_eq!(plan.fee_b, 100);
    assert_eq!(plan.pool_fee_bps, 5);
}

// ---------------------------------------------------------------------------
// Settlement
// ---------------------------------------------------------------------------

#[test]
fn repaid_loan_updates_reserves() {
    let state = reserves(1_000_000, 1_000_000);
    let plan = plan_flash_loan(5, 10_000, 0, Some(state), false, Some(30)).unwrap();
    assert_eq!(plan.fee_a, 30);
    let after = settle_flash_loan(&plan, &state, true, 1_000_030, 1_000_000).unwrap();
    assert_eq!(after.reserve_a, 1_000_030);
    assert_eq!(after.reserve_b, 1_000_000);
    assert_eq!(after.k_last, 1_000_030 * 1_000_000);
    assert!(after.k_last >= plan.pre_k);
}

#[test]
fn failed_callback_is_reported_first() {
    let state = reserves(1_000_000, 1_000_000);
    let plan = plan_flash_loan(5, 10_000, 0, Some(state), false, Some(30)).unwrap();
    assert_eq!(
        settle_flash_loan(&plan, &state, false, 0, 0),
        Err(PairError::FlashCallbackFailed)
    );
}

#[test]
fn unpaid_fee_is_not_repaid() {
    let state = reserves(1_000_000, 1_000_000);
    let plan = plan_flash_loan(5, 10_000, 10_000, Some(state), false, Some(30)).unwrap();
    // principal back, fee missing on A
    assert_eq!(
        settle_flash_loan(&plan, &state, true, 1_000_000, 1_000_030),
        Err(PairError::FlashLoanNotRepaid)
    );
    // fee paid on A, missing on B
    assert_eq!(
        settle_flash_loan(&plan, &state, true, 1_000_030, 1_000_029),
        Err(PairError::FlashLoanNotRepaid)
    );
    assert!(settle_flash_loan(&plan, &state, true, 1_000_030, 1_000_030).is_ok());
}

#[test]
fn stolen_principal_is_not_repaid() {
    let state = reserves(1_000_000, 1_000_000);
    let plan = plan_flash_loan(5, 10_000, 0, Some(state), false, Some(30)).unwrap();
    assert_eq!(
        settle_flash_loan(&plan, &state, true, 990_000, 1_000_000),
        Err(PairError::FlashLoanNotRepaid)
    );
}

#[test]
fn draining_the_other_token_breaks_k() {
    let state = reserves(1_000_000, 1_000_000);
    let plan = plan_flash_loan(5, 10_000, 0, Some(state), false, Some(30)).unwrap();
    assert_eq!(
        settle_flash_loan(&plan, &state, true, 1_000_030, 900_000),
        Err(PairError::InvalidK)
    );
}

#[test]
fn settlement_overflows() {
    let state = PairReserves { reserve_a: i128::MAX, reserve_b: 1, k_last: 0 };
    let plan = FlashLoanPlan { amount_a: 1, amount_b: 0, fee_a: 1, fee_b: 0, pool_fee_bps: 5, pre_k: 0 };
    assert_eq!(settle_flash_loan(&plan, &state, true, i128::MAX, 1), Err(PairError::Overflow));
    let state = reserves(10, 10);
    let plan = FlashLoanPlan { amount_a: 1, amount_b: 0, fee_a: 1, fee_b: 0, pool_fee_bps: 5, pre_k: 100 };
    assert_eq!(settle_flash_loan(&plan, &state, true, i128::MAX, 2), Err(PairError::Overflow));
}

// ---------------------------------------------------------------------------
// Reentrancy lock
// ---------------------------------------------------------------------------

#[test]
fn lock_is_taken_only_by_a_planned_loan_and_released() {
    let s = Some(reserves(1_000, 1_000));
    let planned = plan_flash_loan(0, 10, 0, s, false, None);
    assert!(take_lock(&planned));
    assert!(!lock_on_exit(false, true));
    let refused = plan_flash_loan(0, 10, 0, s, true, None);
    assert!(!take_lock(&refused));
    assert!(lock_on_exit(true, false));
    let failed = plan_flash_loan(0, 0, 0, s, false, None);
    assert!(!take_lock(&failed));
    assert!(!lock_on_exit(false, false));
}
