//! The pair's price oracle: cumulative prices, a ring buffer of the most recent
//! observations, and time-weighted average prices read back from it.
use vstd::prelude::*;

use crate::arith::{
    div_i128, is_i128, trunc_div, wrap_i128, wrapping_add_i128, wrapping_mul_i128,
    wrapping_sub_i128,
};
use crate::errors::OracleError;

verus! {

/// Longest window, in ledgers, that a time-weighted average may cover.
pub const MAX_TWAP_WINDOW: u32 = 86400;

/// Number of observations the ring buffer keeps.
pub const OBSERVATION_CAPACITY: usize = 24;

/// One observation: the ledger sequence it was taken at and the two cumulative prices.
pub type Observation = (u64, i128, i128);

/// The oracle's stored state: observations, oldest first.
pub struct OracleState {
    pub observations: Vec<Observation>,
}

impl OracleState {
    /// An oracle with no observations yet.
    pub fn new() -> (s: Self)
        ensures
            s.observations@.len() == 0,
    {
        OracleState { observations: Vec::new() }
    }
}

/// The growth of a cumulative price over `time_elapsed` ledgers at the price
/// `numerator / denominator` (rounded toward zero), wrapped to `i128`.
pub open spec fn price_delta(numerator: i128, denominator: i128, time_elapsed: u64) -> int {
    wrap_i128(trunc_div(numerator as int, denominator as int) * time_elapsed)
}

/// Whether updating the cumulative prices with these reserves divides without overflow:
/// the only quotient of `i128` values that does not fit is `i128::MIN / -1`.
pub open spec fn price_update_defined(reserve_a: i128, reserve_b: i128) -> bool {
    &&& (reserve_a != 0 ==> is_i128(trunc_div(reserve_b as int, reserve_a as int)))
    &&& (reserve_b != 0 ==> is_i128(trunc_div(reserve_a as int, reserve_b as int)))
}

/// The ring buffer after recording `obs`: the oldest entry leaves once it is full.
pub open spec fn record_observation(observations: Seq<Observation>, obs: Observation) -> Seq<
    Observation,
> {
    if observations.len() >= OBSERVATION_CAPACITY {
        observations.drop_first().push(obs)
    } else {
        observations.push(obs)
    }
}

/// Accumulates the prices of a pair with reserves `reserve_a` and `reserve_b` over
/// `time_elapsed` ledgers, and records the new cumulative prices in the oracle's ring
/// buffer under the ledger sequence `ledger_sequence`.
///
/// Price A grows by `reserve_b / reserve_a` per ledger and price B by
/// `reserve_a / reserve_b`, both with wrapping arithmetic. Nothing changes when a
/// reserve or the elapsed time is zero. The buffer keeps at most 24 entries: when it
/// is full, the oldest leaves.
pub fn update_cumulative_prices(
    state: &mut OracleState,
    ledger_sequence: u32,
    reserve_a: i128,
    reserve_b: i128,
    time_elapsed: u64,
    price_a_cumulative: &mut i128,
    price_b_cumulative: &mut i128,
)
    requires
        reserve_a != 0 && reserve_b != 0 && time_elapsed != 0 ==> price_update_defined(
            reserve_a,
            reserve_b,
        ),
    ensures
        reserve_a == 0 || reserve_b == 0 || time_elapsed == 0 ==> {
            &&& final(state).observations@ == old(state).observations@
            &&& *final(price_a_cumulative) == *old(price_a_cumulative)
            &&& *final(price_b_cumulative) == *old(price_b_cumulative)
        },
        reserve_a != 0 && reserve_b != 0 && time_elapsed != 0 ==> {
            &&& *final(price_a_cumulative) == wrap_i128(
                *old(price_a_cumulative) + price_delta(reserve_b, reserve_a, time_elapsed),
            )
            &&& *final(price_b_cumulative) == wrap_i128(
                *old(price_b_cumulative) + price_delta(reserve_a, reserve_b, time_elapsed),
            )
            &&& final(state).observations@ == record_observation(
                old(state).observations@,
                (ledger_sequence as u64, *final(price_a_cumulative), *final(price_b_cumulative)),
            )
        },
        old(state).observations@.len() <= OBSERVATION_CAPACITY
            ==> final(state).observations@.len() <= OBSERVATION_CAPACITY,
{
    if reserve_a == 0 || reserve_b == 0 || time_elapsed == 0 {
        return;
    }
    let price_a_delta = wrapping_mul_i128(div_i128(reserve_b, reserve_a), time_elapsed as i128);
    let price_b_delta = wrapping_mul_i128(div_i128(reserve_a, reserve_b), time_elapsed as i128);

    *price_a_cumulative = wrapping_add_i128(*price_a_cumulative, price_a_delta);
    *price_b_cumulative = wrapping_add_i128(*price_b_cumulative, price_b_delta);

    if state.observations.len() >= OBSERVATION_CAPACITY {
        state.observations.remove(0);
    }
    state.observations.push((ledger_sequence as u64, *price_a_cumulative, *price_b_cumulative));
}

/// Index of the first observation, from index `from` on, taken at or after the ledger
/// `target`; the length of `obs` when there is none.
pub open spec fn first_at_or_after(obs: Seq<Observation>, target: u64, from: int) -> int
    decreases obs.len() - from,
{
    if from < 0 || from >= obs.len() {
        obs.len() as int
    } else if obs[from].0 >= target {
        from
    } else {
        first_at_or_after(obs, target, from + 1)
    }
}

/// Index of the last observation before index `hi` taken at or before the ledger
/// `target`; 0 when there is none.
pub open spec fn last_at_or_before(obs: Seq<Observation>, target: u64, hi: int) -> int
    decreases hi,
{
    if hi <= 0 {
        0
    } else if obs[hi - 1].0 <= target {
        hi - 1
    } else {
        last_at_or_before(obs, target, hi - 1)
    }
}

/// The observation that closes the interpolation window: the first one taken at or
/// after `target`, or the oldest when none is.
pub open spec fn window_end(obs: Seq<Observation>, target: u64) -> int {
    let e = first_at_or_after(obs, target, 0);
    if e < obs.len() { e } else { 0 }
}

/// The observation that opens the interpolation window: the last one taken at or
/// before `target`, up to and including the closing one.
pub open spec fn window_start(obs: Seq<Observation>, target: u64) -> int {
    let e = first_at_or_after(obs, target, 0);
    last_at_or_before(obs, target, if e < obs.len() { e + 1 } else { obs.len() as int })
}

/// The ledger a window of `window` ledgers ending at `current` starts at (0 at the least).
pub open spec fn window_target(current: u32, window: u32) -> u64 {
    if current >= window { (current - window) as u64 } else { 0 }
}

/// The product the interpolation of a cumulative price scales by: the change of the
/// price between the two observations (wrapped) times the ledgers from the first to
/// the target.
pub open spec fn interpolation_product(
    start_ledger: u64,
    start_value: i128,
    end_value: i128,
    target: u64,
) -> int {
    wrap_i128(end_value - start_value) * (target - start_ledger)
}

/// The cumulative price at `target`, linearly interpolated between two observations
/// (rounded toward zero, wrapped); the first observation's value when both were taken
/// at the same ledger.
pub open spec fn interpolate(
    start_ledger: u64,
    start_value: i128,
    end_ledger: u64,
    end_value: i128,
    target: u64,
) -> int {
    if end_ledger == start_ledger {
        start_value as int
    } else {
        wrap_i128(
            start_value + trunc_div(
                interpolation_product(start_ledger, start_value, end_value, target),
                end_ledger - start_ledger,
            ),
        )
    }
}

/// Whether interpolating between the two observations stays within `i128`: the scaled
/// product fits, and so does its quotient.
pub open spec fn interpolation_fits(
    start_ledger: u64,
    start_value: i128,
    end_ledger: u64,
    end_value: i128,
    target: u64,
) -> bool {
    end_ledger == start_ledger || {
        let p = interpolation_product(start_ledger, start_value, end_value, target);
        &&& is_i128(p)
        &&& is_i128(trunc_div(p, end_ledger - start_ledger))
    }
}

/// Whether a time-weighted average over `window` ledgers reaches the interpolation,
/// that is, passes every check that returns an error before it.
pub open spec fn twap_reaches_interpolation(obs: Seq<Observation>, current: u32, window: u32) -> bool {
    &&& window != 0
    &&& window <= MAX_TWAP_WINDOW
    &&& obs.len() != 0
    &&& obs[0].0 <= window_target(current, window)
}

/// Whether the time-weighted average over `window` ledgers stays within `i128`: for
/// both prices, interpolation between the window's two observations fits.
pub open spec fn twap_defined(obs: Seq<Observation>, current: u32, window: u32) -> bool {
    twap_reaches_interpolation(obs, current, window) ==> {
        let target = window_target(current, window);
        let s = obs[window_start(obs, target)];
        let e = obs[window_end(obs, target)];
        &&& interpolation_fits(s.0, s.1, e.0, e.1, target)
        &&& interpolation_fits(s.0, s.2, e.0, e.2, target)
    }
}

/// The time-weighted average prices over the last `window` ledgers up to the ledger
/// `current`.
///
/// The window must be between 1 and `MAX_TWAP_WINDOW` ledgers, and the oldest
/// observation must be no later than the window's start (else `WindowTooShort`). The
/// cumulative prices at the window's start are interpolated between the observations
/// around it; the averages are the growth from there to the latest observation,
/// divided by the ledgers between them (rounded toward zero), or zero when the latest
/// observation is not after the window's start.
pub open spec fn twap(obs: Seq<Observation>, current: u32, window: u32) -> Result<
    (i128, i128),
    OracleError,
> {
    if window == 0 {
        Err(OracleError::WindowTooShort)
    } else if window > MAX_TWAP_WINDOW {
        Err(OracleError::WindowTooLong)
    } else if obs.len() == 0 {
        Err(OracleError::WindowTooShort)
    } else if obs[0].0 > window_target(current, window) {
        Err(OracleError::WindowTooShort)
    } else {
        let target = window_target(current, window);
        let s = obs[window_start(obs, target)];
        let e = obs[window_end(obs, target)];
        let interpolated_a = interpolate(s.0, s.1, e.0, e.1, target);
        let interpolated_b = interpolate(s.0, s.2, e.0, e.2, target);
        let latest = obs.last();
        if latest.0 <= target {
            Ok((0, 0))
        } else {
            let elapsed = latest.0 - target;
            Ok(
                (
                    trunc_div(wrap_i128(latest.1 - interpolated_a), elapsed) as i128,
                    trunc_div(wrap_i128(latest.2 - interpolated_b), elapsed) as i128,
                ),
            )
        }
    }
}

/// Finds the observations that open and close the interpolation window around
/// `target`: `(window_start, window_end)`.
fn locate_window(obs: &Vec<Observation>, target: u64) -> (r: (usize, usize))
    requires
        obs@.len() > 0,
    ensures
        r.0 == window_start(obs@, target),
        r.1 == window_end(obs@, target),
        r.0 < obs@.len(),
        r.1 < obs@.len(),
{
    let len = obs.len();
    let mut start: usize = 0;
    let mut i: usize = 0;
    while i < len
        invariant
            len == obs@.len(),
            0 <= i <= len,
            start == last_at_or_before(obs@, target, i as int),
            start < len,
            first_at_or_after(obs@, target, 0) == first_at_or_after(obs@, target, i as int),
        decreases len - i,
    {
        let ledger = obs[i].0;
        if ledger <= target {
            start = i;
        }
        if ledger >= target {
            assert(first_at_or_after(obs@, target, i as int) == i);
            return (start, i);
        }
        i = i + 1;
    }
    (start, 0)
}

/// The cumulative price at `target`, interpolated between two observations.
fn interpolate_price(
    start_ledger: u64,
    start_value: i128,
    end_ledger: u64,
    end_value: i128,
    target: u64,
) -> (r: i128)
    requires
        interpolation_fits(start_ledger, start_value, end_ledger, end_value, target),
    ensures
        r == interpolate(start_ledger, start_value, end_ledger, end_value, target),
{
    if end_ledger == start_ledger {
        start_value
    } else {
        let change = wrapping_sub_i128(end_value, start_value);
        let span = target as i128 - start_ledger as i128;
        let scaled = change * span;
        let step = div_i128(scaled, end_ledger as i128 - start_ledger as i128);
        wrapping_add_i128(start_value, step)
    }
}

/// Whether interpolating between the two observations stays within `i128`.
fn interpolation_in_range(
    start_ledger: u64,
    start_value: i128,
    end_ledger: u64,
    end_value: i128,
    target: u64,
) -> (r: bool)
    ensures
        r == interpolation_fits(start_ledger, start_value, end_ledger, end_value, target),
{
    if end_ledger == start_ledger {
        return true;
    }
    let change = wrapping_sub_i128(end_value, start_value);
    let span = target as i128 - start_ledger as i128;
    match change.checked_mul(span) {
        None => false,
        Some(scaled) => scaled.checked_div(end_ledger as i128 - start_ledger as i128).is_some(),
    }
}

/// Whether `consult_twap` can compute its result for these arguments without an
/// arithmetic overflow: `false` exactly where interpolating a cumulative price leaves
/// `i128`, in which case the contract panics rather than answer.
pub fn twap_in_range(state: &OracleState, ledger_sequence: u32, window_ledgers: u32) -> (r: bool)
    ensures
        r == twap_defined(state.observations@, ledger_sequence, window_ledgers),
{
    let obs = &state.observations;
    if window_ledgers == 0 || window_ledgers > MAX_TWAP_WINDOW || obs.is_empty() {
        return true;
    }
    let target = (ledger_sequence as u64).saturating_sub(window_ledgers as u64);
    if obs[0].0 > target {
        return true;
    }
    let (start_index, end_index) = locate_window(obs, target);
    let (start_ledger, start_a, start_b) = obs[start_index];
    let (end_ledger, end_a, end_b) = obs[end_index];
    interpolation_in_range(start_ledger, start_a, end_ledger, end_a, target)
        && interpolation_in_range(start_ledger, start_b, end_ledger, end_b, target)
}

/// Reads the time-weighted average prices of the last `window_ledgers` ledgers,
/// up to the current ledger sequence `ledger_sequence`, from the oracle's observations.
///
/// Refuses a window of zero ledgers or one with no observation at or before its start
/// with `WindowTooShort`, and one longer than `MAX_TWAP_WINDOW` with `WindowTooLong`.
pub fn consult_twap(state: &OracleState, ledger_sequence: u32, window_ledgers: u32) -> (r: Result<
    (i128, i128),
    OracleError,
>)
    requires
        twap_defined(state.observations@, ledger_sequence, window_ledgers),
    ensures
        r == twap(state.observations@, ledger_sequence, window_ledgers),
        window_ledgers == 0 ==> r == Err::<(i128, i128), OracleError>(OracleError::WindowTooShort),
        window_ledgers > MAX_TWAP_WINDOW ==> r == Err::<(i128, i128), OracleError>(
            OracleError::WindowTooLong,
        ),
{
    if window_ledgers == 0 {
        return Err(OracleError::WindowTooShort);
    }
    if window_ledgers > MAX_TWAP_WINDOW {
        return Err(OracleError::WindowTooLong);
    }
    let obs = &state.observations;
    if obs.is_empty() {
        return Err(OracleError::WindowTooShort);
    }
    let current_ledger = ledger_sequence as u64;
    let target = current_ledger.saturating_sub(window_ledgers as u64);

    let oldest_ledger = obs[0].0;
    if oldest_ledger > target {
        return Err(OracleError::WindowTooShort);
    }

    let (start_index, end_index) = locate_window(obs, target);
    let (start_ledger, start_a, start_b) = obs[start_index];
    let (end_ledger, end_a, end_b) = obs[end_index];

    let interpolated_a = interpolate_price(start_ledger, start_a, end_ledger, end_a, target);
    let interpolated_b = interpolate_price(start_ledger, start_b, end_ledger, end_b, target);

    let (latest_ledger, latest_a, latest_b) = obs[obs.len() - 1];
    let time_elapsed = latest_ledger.saturating_sub(target);
    if time_elapsed == 0 {
        return Ok((0, 0));
    }

    let delta_a = wrapping_sub_i128(latest_a, interpolated_a);
    let delta_b = wrapping_sub_i128(latest_b, interpolated_b);

    let price_a_avg = div_i128(delta_a, time_elapsed as i128);
    let price_b_avg = div_i128(delta_b, time_elapsed as i128);

    Ok((price_a_avg, price_b_avg))
}

/// Observations taken at strictly increasing ledgers.
pub open spec fn strictly_increasing(obs: Seq<Observation>) -> bool {
    forall|i: int, j: int| 0 <= i < j < obs.len() ==> #[trigger] obs[i].0 < #[trigger] obs[j].0
}

/// Cumulative prices that grow at the constant rates `p` (price A) and `q` (price B)
/// per ledger from the first observation.
pub open spec fn constant_prices(obs: Seq<Observation>, p: int, q: int) -> bool {
    forall|i: int|
        0 <= i < obs.len() ==> {
            &&& #[trigger] obs[i].1 == obs[0].1 + p * (obs[i].0 - obs[0].0)
            &&& obs[i].2 == obs[0].2 + q * (obs[i].0 - obs[0].0)
        }
}

/// A value of `i128` is its own wrap-around.
proof fn lemma_wrap_identity(v: int)
    requires
        is_i128(v),
    ensures
        wrap_i128(v) == v,
{
    crate::arith::lemma_wrap_small(v);
}

/// Dividing a multiple of a positive `d` by `d`, rounding toward zero, is exact.
proof fn lemma_trunc_div_exact(x: int, d: int)
    requires
        d > 0,
    ensures
        trunc_div(x * d, d) == x,
{
    let ax = if x < 0 { -x } else { x };
    assert(crate::arith::abs(x * d) == ax * d) by (nonlinear_arith)
        requires
            d > 0,
            ax == (if x < 0 { -x } else { x }),
    ;
    assert((x * d < 0) == (x < 0)) by (nonlinear_arith)
        requires
            d > 0,
    ;
    vstd::arithmetic::div_mod::lemma_div_by_multiple(ax, d);
}

/// Scaling by a shorter span gives a value between 0 and the longer span's.
proof fn lemma_scaled_within(p: int, a: int, b: int)
    requires
        0 <= a <= b,
    ensures
        p >= 0 ==> 0 <= p * a <= p * b,
        p < 0 ==> p * b <= p * a <= 0,
{
    assert(p >= 0 ==> 0 <= p * a <= p * b) by (nonlinear_arith)
        requires
            0 <= a <= b,
    ;
    assert(p < 0 ==> p * b <= p * a <= 0) by (nonlinear_arith)
        requires
            0 <= a <= b,
    ;
}

/// One cumulative price growing at the rate `p` from `c` at ledger `l0`: interpolated
/// at `t` between observations at `sl <= t <= el`, and averaged from `t` to the
/// latest observation at `ll > t`, it gives back `p`.
proof fn lemma_constant_rate_average(
    l0: int,
    c: i128,
    p: int,
    sl: u64,
    sv: i128,
    el: u64,
    ev: i128,
    ll: u64,
    lv: i128,
    t: u64,
)
    requires
        l0 <= sl <= t <= el <= ll,
        t < ll,
        sv == c + p * (sl - l0),
        ev == c + p * (el - l0),
        lv == c + p * (ll - l0),
        is_i128(p * (ll - l0)),
    ensures
        trunc_div(wrap_i128(lv - interpolate(sl, sv, el, ev, t)), ll - t) == p,
        is_i128(p),
{
    let total = ll - l0;
    lemma_scaled_within(p, t - l0, total);
    lemma_scaled_within(p, 1, total);
    // the cumulative price at t fits: it lies between c and lv
    let at_t = c + p * (t - l0);
    assert(is_i128(at_t));
    if sl == el {
        assert(interpolate(sl, sv, el, ev, t) == at_t);
    } else {
        let d = el - sl;
        assert(ev - sv == p * d) by (nonlinear_arith)
            requires
                ev == c + p * (el - l0),
                sv == c + p * (sl - l0),
                d == el - sl,
        ;
        lemma_scaled_within(p, d, total);
        lemma_wrap_identity(ev - sv);
        assert(interpolation_product(sl, sv, ev, t) == (p * (t - sl)) * d) by (nonlinear_arith)
            requires
                interpolation_product(sl, sv, ev, t) == (ev - sv) * (t - sl),
                ev - sv == p * d,
        ;
        lemma_trunc_div_exact(p * (t - sl), d);
        assert(sv + p * (t - sl) == at_t) by (nonlinear_arith)
            requires
                sv == c + p * (sl - l0),
                at_t == c + p * (t - l0),
        ;
        lemma_wrap_identity(at_t);
    }
    assert(lv - at_t == p * (ll - t)) by (nonlinear_arith)
        requires
            lv == c + p * (ll - l0),
            at_t == c + p * (t - l0),
    ;
    lemma_scaled_within(p, ll - t, total);
    lemma_wrap_identity(lv - at_t);
    lemma_trunc_div_exact(p, ll - t);
}

/// What the scan for the first observation at or after `target` finds.
proof fn lemma_first_at_or_after(obs: Seq<Observation>, target: u64, from: int)
    requires
        0 <= from <= obs.len(),
    ensures
        from <= first_at_or_after(obs, target, from) <= obs.len(),
        forall|k: int|
            from <= k < first_at_or_after(obs, target, from) ==> #[trigger] obs[k].0 < target,
        first_at_or_after(obs, target, from) < obs.len() ==> obs[first_at_or_after(
            obs,
            target,
            from,
        )].0 >= target,
    decreases obs.len() - from,
{
    if from < obs.len() && obs[from].0 < target {
        lemma_first_at_or_after(obs, target, from + 1);
    }
}

/// What the scan for the last observation at or before `target` finds, when the
/// oldest observation is at or before it.
proof fn lemma_last_at_or_before(obs: Seq<Observation>, target: u64, hi: int)
    requires
        0 < hi <= obs.len(),
        obs[0].0 <= target,
    ensures
        0 <= last_at_or_before(obs, target, hi) < hi,
        obs[last_at_or_before(obs, target, hi)].0 <= target,
    decreases hi,
{
    if obs[hi - 1].0 > target && hi > 1 {
        lemma_last_at_or_before(obs, target, hi - 1);
    }
}

/// The time-weighted average of constant prices is those prices. When the
/// observations are taken at strictly increasing ledgers and their cumulative prices
/// grow at the constant rates `p` and `q` per ledger (with the whole growth within
/// `i128`), then for any window whose start lies from the oldest observation up to
/// before the latest, the averages are exactly `p` and `q`, whatever the current
/// ledger.
pub proof fn lemma_twap_of_constant_prices(
    obs: Seq<Observation>,
    current: u32,
    window: u32,
    p: int,
    q: int,
)
    requires
        obs.len() > 0,
        strictly_increasing(obs),
        constant_prices(obs, p, q),
        is_i128(p * (obs.last().0 - obs[0].0)),
        is_i128(q * (obs.last().0 - obs[0].0)),
        0 < window <= MAX_TWAP_WINDOW,
        obs[0].0 <= (if current >= window { current - window } else { 0int }),
        (if current >= window { current - window } else { 0int }) < obs.last().0,
    ensures
        twap(obs, current, window) matches Ok((a, b)) && a == p && b == q,
{
    let t = window_target(current, window);
    let n = obs.len() as int;
    let last = n - 1;
    lemma_first_at_or_after(obs, t, 0);
    let e = first_at_or_after(obs, t, 0);
    if e >= n {
        assert(obs[last].0 < t);
    }
    assert(e < n);
    assert(window_end(obs, t) == e);
    lemma_last_at_or_before(obs, t, e + 1);
    let s = window_start(obs, t);
    assert(s == last_at_or_before(obs, t, e + 1));
    assert(0 <= s <= e);
    let l0 = obs[0].0 as int;
    if s > 0 {
        assert(obs[0].0 < obs[s].0);
    }
    if e < last {
        assert(obs[e].0 < obs[last].0);
    }
    assert(obs[s].1 == obs[0].1 + p * (obs[s].0 - l0));
    assert(obs[e].1 == obs[0].1 + p * (obs[e].0 - l0));
    assert(obs[last].1 == obs[0].1 + p * (obs[last].0 - l0));
    lemma_constant_rate_average(
        l0,
        obs[0].1,
        p,
        obs[s].0,
        obs[s].1,
        obs[e].0,
        obs[e].1,
        obs[last].0,
        obs[last].1,
        t,
    );
    lemma_constant_rate_average(
        l0,
        obs[0].2,
        q,
        obs[s].0,
        obs[s].2,
        obs[e].0,
        obs[e].2,
        obs[last].0,
        obs[last].2,
        t,
    );
}

} // verus!
