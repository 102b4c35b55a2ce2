//! Flash loans: the fee schedule, the pre-flight checks before any token
//! moves, and the settlement checks after the receiver's callback.
use vstd::prelude::*;

use crate::arith::{div_i128, is_i128, trunc_div};
use crate::errors::PairError;

verus! {

/// Minimum flash-loan fee in basis points (0.05%).
pub const FLASH_FEE_FLOOR_BPS: u32 = 5;

/// Largest fee rate a flash loan accepts, in basis points (100%).
pub const MAX_FLASH_FEE_BPS: u32 = 10_000;

/// Maximum allowed byte length of the payload handed to the receiver.
pub const MAX_PAYLOAD_SIZE: u32 = 256;

/// The rate actually charged: the pool's rate, but never below the floor.
pub open spec fn effective_fee_bps(fee_bps: u32) -> int {
    if fee_bps >= FLASH_FEE_FLOOR_BPS { fee_bps as int } else { FLASH_FEE_FLOOR_BPS as int }
}

/// The flash-loan fee for `amount` at `fee_bps`: `amount * max(fee_bps, 5) / 10_000`,
/// rounded toward zero, and at least 1; an error for a rate above 100% or a product
/// that does not fit in `i128`.
pub open spec fn flash_fee(amount: i128, fee_bps: u32) -> Result<i128, PairError> {
    if fee_bps > MAX_FLASH_FEE_BPS {
        Err(PairError::FlashLoanFeeTooHigh)
    } else if !is_i128(amount * effective_fee_bps(fee_bps)) {
        Err(PairError::FeeOverflow)
    } else {
        let fee = trunc_div(amount * effective_fee_bps(fee_bps), 10_000);
        Ok((if fee >= 1 { fee } else { 1 }) as i128)
    }
}

/// A fee for a positive principal lies between 1 and the principal itself.
proof fn lemma_fee_within_principal(amount: int, bps: int)
    requires
        1 <= amount,
        0 <= bps <= 10_000,
    ensures
        amount * bps / 10_000 <= amount,
        0 <= amount * bps,
{
    assert(amount * bps <= amount * 10_000) by (nonlinear_arith)
        requires
            1 <= amount,
            bps <= 10_000,
    ;
    assert(0 <= amount * bps) by (nonlinear_arith)
        requires
            1 <= amount,
            0 <= bps,
    ;
    assert(amount * 10_000 / 10_000 == amount) by (nonlinear_arith);
    vstd::arithmetic::div_mod::lemma_div_is_ordered(amount * bps, amount * 10_000, 10_000);
}

/// Computes the flash-loan fee for `amount` stroops at the pool's current rate
/// `current_fee_bps`.
///
/// The rate charged is the higher of `current_fee_bps` and the floor of 5 bps, and
/// at least 1 stroop is charged whatever the rounding. A rate above 10_000 bps is
/// refused with `FlashLoanFeeTooHigh`; a principal so large that the product
/// overflows is refused with `FeeOverflow`.
pub fn compute_flash_fee(amount: i128, current_fee_bps: u32) -> (r: Result<i128, PairError>)
    ensures
        r == flash_fee(amount, current_fee_bps),
        r matches Ok(fee) ==> fee >= 1,
        r matches Ok(fee) ==> (amount >= 1 ==> fee <= amount),
        current_fee_bps <= FLASH_FEE_FLOOR_BPS ==> r == flash_fee(amount, FLASH_FEE_FLOOR_BPS),
{
    if current_fee_bps > MAX_FLASH_FEE_BPS {
        return Err(PairError::FlashLoanFeeTooHigh);
    }
    let effective_bps: i128 = if current_fee_bps >= FLASH_FEE_FLOOR_BPS {
        current_fee_bps as i128
    } else {
        FLASH_FEE_FLOOR_BPS as i128
    };
    match amount.checked_mul(effective_bps) {
        None => Err(PairError::FeeOverflow),
        Some(product) => {
            let fee = div_i128(product, 10_000);
            proof {
                if amount >= 1 {
                    lemma_fee_within_principal(amount as int, effective_bps as int);
                }
            }
            Ok(if fee >= 1 { fee } else { 1 })
        },
    }
}

/// The reserves of the pair and its last recorded constant-product invariant.
#[derive(Copy, Clone, Debug, PartialEq, Eq, Structural)]
pub struct PairReserves {
    pub reserve_a: i128,
    pub reserve_b: i128,
    pub k_last: i128,
}

/// What the pre-flight checks of a flash loan settle on before any token moves.
#[derive(Copy, Clone, Debug, PartialEq, Eq, Structural)]
pub struct FlashLoanPlan {
    /// Principal of token A lent out.
    pub amount_a: i128,
    /// Principal of token B lent out.
    pub amount_b: i128,
    /// Fee owed on token A (0 when none is borrowed).
    pub fee_a: i128,
    /// Fee owed on token B (0 when none is borrowed).
    pub fee_b: i128,
    /// The pool's fee rate the fees were computed at.
    pub pool_fee_bps: u32,
    /// The constant-product invariant `reserve_a * reserve_b` before the loan.
    pub pre_k: i128,
}

/// The fee owed on one token: its flash fee when some is borrowed, else nothing.
pub open spec fn token_fee(amount: i128, fee_bps: u32) -> Result<i128, PairError> {
    if amount > 0 { flash_fee(amount, fee_bps) } else { Ok(0) }
}

/// The outcome of the pre-flight checks of a flash loan, in the order the contract
/// makes them: payload size, amounts, initialization, liquidity, the pre-loan
/// invariant, the reentrancy lock, then the fee of each borrowed token at the pool's
/// baseline rate (5 bps when the pool has no fee state).
pub open spec fn flash_loan_plan(
    data_len: u32,
    amount_a: i128,
    amount_b: i128,
    state: Option<PairReserves>,
    locked: bool,
    baseline_fee_bps: Option<u32>,
) -> Result<FlashLoanPlan, PairError> {
    if data_len > MAX_PAYLOAD_SIZE {
        Err(PairError::FlashPayloadTooLarge)
    } else if amount_a < 0 || amount_b < 0 || (amount_a == 0 && amount_b == 0) {
        Err(PairError::InsufficientInputAmount)
    } else {
        match state {
            None => Err(PairError::NotInitialized),
            Some(s) => {
                let pool_fee_bps = match baseline_fee_bps {
                    Some(b) => b,
                    None => FLASH_FEE_FLOOR_BPS,
                };
                if amount_a > s.reserve_a || amount_b > s.reserve_b {
                    Err(PairError::InsufficientLiquidity)
                } else if !is_i128(s.reserve_a * s.reserve_b) {
                    Err(PairError::Overflow)
                } else if locked {
                    Err(PairError::Locked)
                } else {
                    match token_fee(amount_a, pool_fee_bps) {
                        Err(e) => Err(e),
                        Ok(fee_a) => match token_fee(amount_b, pool_fee_bps) {
                            Err(e) => Err(e),
                            Ok(fee_b) => Ok(
                                FlashLoanPlan {
                                    amount_a,
                                    amount_b,
                                    fee_a,
                                    fee_b,
                                    pool_fee_bps,
                                    pre_k: (s.reserve_a * s.reserve_b) as i128,
                                },
                            ),
                        },
                    }
                }
            },
        }
    }
}

/// The outcome of the checks after the receiver's callback: the callback succeeded,
/// each borrowed token's balance covers its old reserve plus its fee, and the
/// constant-product invariant did not fall. On success the reserves become the new
/// balances and the invariant their product.
pub open spec fn flash_loan_settlement(
    plan: FlashLoanPlan,
    state: PairReserves,
    callback_succeeded: bool,
    new_balance_a: i128,
    new_balance_b: i128,
) -> Result<PairReserves, PairError> {
    if !callback_succeeded {
        Err(PairError::FlashCallbackFailed)
    } else if plan.amount_a > 0 && !is_i128(state.reserve_a + plan.fee_a) {
        Err(PairError::Overflow)
    } else if plan.amount_a > 0 && new_balance_a < state.reserve_a + plan.fee_a {
        Err(PairError::FlashLoanNotRepaid)
    } else if plan.amount_b > 0 && !is_i128(state.reserve_b + plan.fee_b) {
        Err(PairError::Overflow)
    } else if plan.amount_b > 0 && new_balance_b < state.reserve_b + plan.fee_b {
        Err(PairError::FlashLoanNotRepaid)
    } else if !is_i128(new_balance_a * new_balance_b) {
        Err(PairError::Overflow)
    } else if new_balance_a * new_balance_b < plan.pre_k {
        Err(PairError::InvalidK)
    } else {
        Ok(
            PairReserves {
                reserve_a: new_balance_a,
                reserve_b: new_balance_b,
                k_last: (new_balance_a * new_balance_b) as i128,
            },
        )
    }
}

/// The fee owed on one token of a flash loan.
fn fee_for(amount: i128, fee_bps: u32) -> (r: Result<i128, PairError>)
    ensures
        r == token_fee(amount, fee_bps),
{
    if amount > 0 {
        compute_flash_fee(amount, fee_bps)
    } else {
        Ok(0)
    }
}

/// Runs the pre-flight checks of a flash loan, before any token moves.
///
/// `data_len` is the length of the payload for the receiver, `state` the pair's
/// stored reserves (`None` before initialization), `locked` whether another flash
/// loan holds the reentrancy lock, and `baseline_fee_bps` the pool's baseline fee
/// rate (`None` when the pool has no fee state, in which case the floor applies).
/// Returns the fees owed and the invariant to hold the loan to, or the first error
/// in the order the contract checks them.
pub fn plan_flash_loan(
    data_len: u32,
    amount_a: i128,
    amount_b: i128,
    state: Option<PairReserves>,
    locked: bool,
    baseline_fee_bps: Option<u32>,
) -> (r: Result<FlashLoanPlan, PairError>)
    ensures
        r == flash_loan_plan(data_len, amount_a, amount_b, state, locked, baseline_fee_bps),
{
    if data_len > MAX_PAYLOAD_SIZE {
        return Err(PairError::FlashPayloadTooLarge);
    }
    if amount_a < 0 || amount_b < 0 {
        return Err(PairError::InsufficientInputAmount);
    }
    if amount_a == 0 && amount_b == 0 {
        return Err(PairError::InsufficientInputAmount);
    }
    let s = match state {
        None => {
            return Err(PairError::NotInitialized);
        },
        Some(s) => s,
    };
    if amount_a > s.reserve_a || amount_b > s.reserve_b {
        return Err(PairError::InsufficientLiquidity);
    }
    let pre_k = match s.reserve_a.checked_mul(s.reserve_b) {
        None => {
            return Err(PairError::Overflow);
        },
        Some(k) => k,
    };
    if locked {
        return Err(PairError::Locked);
    }
    let pool_fee_bps = match baseline_fee_bps {
        Some(b) => b,
        None => FLASH_FEE_FLOOR_BPS,
    };
    let fee_a = match fee_for(amount_a, pool_fee_bps) {
        Err(e) => {
            return Err(e);
        },
        Ok(f) => f,
    };
    let fee_b = match fee_for(amount_b, pool_fee_bps) {
        Err(e) => {
            return Err(e);
        },
        Ok(f) => f,
    };
    Ok(FlashLoanPlan { amount_a, amount_b, fee_a, fee_b, pool_fee_bps, pre_k })
}

/// Runs the checks after the receiver's callback and gives the pair's new reserves.
///
/// `callback_succeeded` is whether the receiver's callback returned without error,
/// and `new_balance_a`, `new_balance_b` the pair's token balances read after it.
/// Each borrowed token's balance must cover its old reserve plus its fee, and the
/// product of the new balances must not fall below the invariant before the loan.
pub fn settle_flash_loan(
    plan: &FlashLoanPlan,
    state: &PairReserves,
    callback_succeeded: bool,
    new_balance_a: i128,
    new_balance_b: i128,
) -> (r: Result<PairReserves, PairError>)
    ensures
        r == flash_loan_settlement(*plan, *state, callback_succeeded, new_balance_a, new_balance_b),
        r matches Ok(s) ==> s.k_last >= plan.pre_k,
        r matches Ok(s) ==> s.reserve_a == new_balance_a && s.reserve_b == new_balance_b
            && s.k_last == new_balance_a * new_balance_b,
{
    if !callback_succeeded {
        return Err(PairError::FlashCallbackFailed);
    }
    if plan.amount_a > 0 {
        let required_a = match state.reserve_a.checked_add(plan.fee_a) {
            None => {
                return Err(PairError::Overflow);
            },
            Some(v) => v,
        };
        if new_balance_a < required_a {
            return Err(PairError::FlashLoanNotRepaid);
        }
    }
    if plan.amount_b > 0 {
        let required_b = match state.reserve_b.checked_add(plan.fee_b) {
            None => {
                return Err(PairError::Overflow);
            },
            Some(v) => v,
        };
        if new_balance_b < required_b {
            return Err(PairError::FlashLoanNotRepaid);
        }
    }
    let post_k = match new_balance_a.checked_mul(new_balance_b) {
        None => {
            return Err(PairError::Overflow);
        },
        Some(k) => k,
    };
    if post_k < plan.pre_k {
        return Err(PairError::InvalidK);
    }
    Ok(PairReserves { reserve_a: new_balance_a, reserve_b: new_balance_b, k_last: post_k })
}

/// Whether a flash loan takes the reentrancy lock: exactly when its pre-flight
/// checks pass, before any token moves.
pub open spec fn lock_taken(plan: Result<FlashLoanPlan, PairError>) -> bool {
    plan is Ok
}

/// The reentrancy flag when a flash loan returns, whatever its result: released if the
/// loan took it, else as it was.
pub open spec fn lock_after(locked_before: bool, taken: bool) -> bool {
    if taken { false } else { locked_before }
}

/// Decides whether the flash loan whose pre-flight checks gave `plan` takes the
/// reentrancy lock before moving any token.
pub fn take_lock(plan: &Result<FlashLoanPlan, PairError>) -> (taken: bool)
    ensures
        taken == lock_taken(*plan),
        taken <==> plan is Ok,
{
    plan.is_ok()
}

/// The reentrancy flag to leave behind when a flash loan returns, on every exit path:
/// `locked_before` is the flag before the loan and `taken` whether the loan took it.
pub fn lock_on_exit(locked_before: bool, taken: bool) -> (locked: bool)
    ensures
        locked == lock_after(locked_before, taken),
        taken ==> !locked,
        !taken ==> locked == locked_before,
{
    if taken { false } else { locked_before }
}

/// Whether a flash loan passes the checks made before the reentrancy lock: payload
/// size, amounts, initialization, liquidity and the pre-loan invariant.
pub open spec fn passes_checks_before_lock(
    data_len: u32,
    amount_a: i128,
    amount_b: i128,
    state: Option<PairReserves>,
) -> bool {
    &&& data_len <= MAX_PAYLOAD_SIZE
    &&& amount_a >= 0 && amount_b >= 0
    &&& amount_a > 0 || amount_b > 0
    &&& match state {
        Some(s) => amount_a <= s.reserve_a && amount_b <= s.reserve_b && is_i128(
            s.reserve_a * s.reserve_b,
        ),
        None => false,
    }
}

/// The reentrancy discipline of a flash loan. The lock is taken only when it was
/// free; a loan that finds it held, once the checks before it pass, is refused with
/// `Locked` and takes nothing; and whatever the result, the flag ends as it began.
pub proof fn lemma_flash_loan_lock_discipline(
    data_len: u32,
    amount_a: i128,
    amount_b: i128,
    state: Option<PairReserves>,
    locked: bool,
    baseline_fee_bps: Option<u32>,
)
    ensures
        ({
            let plan = flash_loan_plan(data_len, amount_a, amount_b, state, locked, baseline_fee_bps);
            &&& lock_taken(plan) <==> plan is Ok
            &&& lock_taken(plan) ==> !locked
            &&& (locked && passes_checks_before_lock(data_len, amount_a, amount_b, state)) ==> plan
                == Err::<FlashLoanPlan, PairError>(PairError::Locked)
            &&& lock_after(locked, lock_taken(plan)) == locked
        }),
{
}

/// Settlement in terms of its inputs: it succeeds exactly when the callback succeeded,
/// each borrowed token came back with at least its old reserve plus its fee (a sum
/// that fits in `i128`), and the product of the new balances fits and is no lower
/// than the invariant before the loan; and on success the new reserves are exactly
/// the post-callback balances, with their product as the invariant, surplus included.
pub proof fn lemma_settlement_takes_the_balances(
    plan: FlashLoanPlan,
    state: PairReserves,
    callback_succeeded: bool,
    new_balance_a: i128,
    new_balance_b: i128,
)
    ensures
        flash_loan_settlement(plan, state, callback_succeeded, new_balance_a, new_balance_b) is Ok
            <==> {
            &&& callback_succeeded
            &&& plan.amount_a > 0 ==> is_i128(state.reserve_a + plan.fee_a) && new_balance_a
                >= state.reserve_a + plan.fee_a
            &&& plan.amount_b > 0 ==> is_i128(state.reserve_b + plan.fee_b) && new_balance_b
                >= state.reserve_b + plan.fee_b
            &&& is_i128(new_balance_a * new_balance_b)
            &&& new_balance_a * new_balance_b >= plan.pre_k
        },
        flash_loan_settlement(plan, state, callback_succeeded, new_balance_a, new_balance_b) matches Ok(
            after,
        ) ==> after.reserve_a == new_balance_a && after.reserve_b == new_balance_b && after.k_last
            == new_balance_a * new_balance_b,
{
}

/// A flash loan that passes both its checks never lowers the constant-product
/// invariant, and every token it lent comes back with at least its fee, which is
/// at least one stroop.
pub proof fn lemma_flash_loan_pays_the_pool(
    data_len: u32,
    amount_a: i128,
    amount_b: i128,
    state: PairReserves,
    locked: bool,
    baseline_fee_bps: Option<u32>,
    callback_succeeded: bool,
    new_balance_a: i128,
    new_balance_b: i128,
)
    requires
        flash_loan_plan(data_len, amount_a, amount_b, Some(state), locked, baseline_fee_bps) is Ok,
        flash_loan_settlement(
            flash_loan_plan(data_len, amount_a, amount_b, Some(state), locked, baseline_fee_bps)->Ok_0,
            state,
            callback_succeeded,
            new_balance_a,
            new_balance_b,
        ) is Ok,
    ensures
        ({
            let plan = flash_loan_plan(
                data_len,
                amount_a,
                amount_b,
                Some(state),
                locked,
                baseline_fee_bps,
            )->Ok_0;
            let after = flash_loan_settlement(
                plan,
                state,
                callback_succeeded,
                new_balance_a,
                new_balance_b,
            )->Ok_0;
            &&& after.k_last >= state.reserve_a * state.reserve_b
            &&& after.k_last == after.reserve_a * after.reserve_b
            &&& (amount_a > 0 ==> plan.fee_a >= 1 && after.reserve_a >= state.reserve_a
                + plan.fee_a)
            &&& (amount_b > 0 ==> plan.fee_b >= 1 && after.reserve_b >= state.reserve_b
                + plan.fee_b)
            &&& (amount_a == 0 ==> plan.fee_a == 0)
            &&& (amount_b == 0 ==> plan.fee_b == 0)
        }),
{
}

} // verus!
