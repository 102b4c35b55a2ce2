use coralswap_pair::errors::OracleError;
use coralswap_pair::oracle::{
    consult_twap, twap_in_range, update_cumulative_prices, OracleState, MAX_TWAP_WINDOW,
};

#[test]
fn dummy() {}

#[test]
fn ring_buffer_capped_at_24() {
    let mut state = OracleState::new();
    let mut price_a: i128 = 0;
    let mut price_b: i128 = 0;

    // Push 30 observations
    for _i in 0..30 {
        update_cumulative_prices(&mut state, 0, 100, 200, 1, &mut price_a, &mut price_b);
    }

    assert_eq!(state.observations.len(), 24, "ring buffer must not exceed 24 entries");
}

#[test]
fn observations_are_appended_on_price_update() {
    let mut state = OracleState::new();
    let mut price_a: i128 = 0;
    let mut price_b: i128 = 0;

    update_cumulative_prices(&mut state, 0, 100, 200, 10, &mut price_a, &mut price_b);
    assert_eq!(price_a, 20);

    assert_eq!(state.observations.len(), 1);
    let (_, cum_a, _) = state.observations[0];
    assert_eq!(cum_a, 20);
}

#[test]
fn consult_twap_window_zero_returns_error() {
    let state = OracleState::new();
    let result = consult_twap(&state, 0, 0);
    assert_eq!(result, Err(OracleError::WindowTooShort));
}

#[test]
fn consult_twap_window_too_long_returns_error() {
    let state = OracleState::new();
    let result = consult_twap(&state, 0, MAX_TWAP_WINDOW + 1);
    assert_eq!(result, Err(OracleError::WindowTooLong));
}

#[test]
fn consult_twap_no_observations_returns_error() {
    let state = OracleState::new();
    let result = consult_twap(&state, 0, 100);
    assert_eq!(result, Err(OracleError::WindowTooShort));
}

// ---------------------------------------------------------------------------
// Cumulative prices and the ring buffer
// ---------------------------------------------------------------------------

#[test]
fn zero_reserve_or_elapsed_changes_nothing() {
    let mut state = OracleState::new();
    let mut price_a: i128 = 7;
    let mut price_b: i128 = 9;
    update_cumulative_prices(&mut state, 5, 0, 200, 10, &mut price_a, &mut price_b);
    update_cumulative_prices(&mut state, 5, 100, 0, 10, &mut price_a, &mut price_b);
    update_cumulative_prices(&mut state, 5, 100, 200, 0, &mut price_a, &mut price_b);
    assert_eq!((price_a, price_b), (7, 9));
    assert!(state.observations.is_empty());
}

#[test]
fn prices_accumulate_with_rounding_toward_zero() {
    let mut state = OracleState::new();
    let mut price_a: i128 = 0;
    let mut price_b: i128 = 0;
    update_cumulative_prices(&mut state, 3, 300, 1_000, 4, &mut price_a, &mut price_b);
    // 1_000 / 300 = 3 per ledger, 300 / 1_000 = 0 per ledger
    assert_eq!((price_a, price_b), (12, 0));
    update_cumulative_prices(&mut state, 7, -300, 1_000, 2, &mut price_a, &mut price_b);
    // 1_000 / -300 = -3 per ledger
    assert_eq!(price_a, 6);
    assert_eq!(state.observations, vec![(3, 12, 0), (7, 6, 0)]);
}

#[test]
fn cumulative_prices_wrap_around() {
    let mut state = OracleState::new();
    let mut price_a: i128 = i128::MAX;
    let mut price_b: i128 = 0;
    update_cumulative_prices(&mut state, 1, 1, 2, 1, &mut price_a, &mut price_b);
    assert_eq!(price_a, i128::MIN + 1);
}

#[test]
fn full_buffer_drops_oldest() {
    let mut state = OracleState::new();
    let mut price_a: i128 = 0;
    let mut price_b: i128 = 0;
    for ledger in 1..=25u32 {
        update_cumulative_prices(&mut state, ledger, 100, 100, 1, &mut price_a, &mut price_b);
    }
    assert_eq!(state.observations.len(), 24);
    assert_eq!(state.observations[0], (2, 2, 2));
    assert_eq!(state.observations[23], (25, 25, 25));
}

// ---------------------------------------------------------------------------
// Time-weighted averages
// ---------------------------------------------------------------------------

fn state_of(observations: Vec<(u64, i128, i128)>) -> OracleState {
    OracleState { observations }
}

#[test]
fn window_starting_before_oldest_is_too_short() {
    let state = state_of(vec![(100, 0, 0), (200, 1_000, 500)]);
    // window start 150 > ... oldest at 100 is fine; start at 50 is not
    assert_eq!(consult_twap(&state, 200, 150), Err(OracleError::WindowTooShort));
    assert!(consult_twap(&state, 200, 100).is_ok());
}

#[test]
fn twap_interpolates_between_observations() {
    let state = state_of(vec![(100, 0, 0), (200, 1_000, 500), (300, 3_000, 1_500)]);
    // window start at 150: A interpolates to 500, B to 250; latest at 300
    assert!(twap_in_range(&state, 300, 150));
    assert_eq!(consult_twap(&state, 300, 150), Ok((16, 8)));
}

#[test]
fn twap_at_an_observation() {
    let state = state_of(vec![(100, 0, 0), (200, 1_000, 500), (300, 3_000, 1_500)]);
    // window start at 200 coincides with an observation
    assert_eq!(consult_twap(&state, 300, 100), Ok((20, 10)));
}

#[test]
fn twap_with_latest_at_window_start_is_zero() {
    let state = state_of(vec![(100, 0, 0), (200, 1_000, 500)]);
    assert_eq!(consult_twap(&state, 400, 100), Ok((0, 0)));
}

#[test]
fn twap_window_beyond_current_ledger_starts_at_zero() {
    let state = state_of(vec![(0, 0, 0), (10, 100, 50)]);
    // current ledger 5 with a window of 100: the window starts at ledger 0
    assert_eq!(consult_twap(&state, 5, 100), Ok((10, 5)));
}

#[test]
fn twap_max_window_is_accepted() {
    let state = state_of(vec![(0, 0, 0), (86_400, 86_400, 0)]);
    assert_eq!(consult_twap(&state, 86_400, MAX_TWAP_WINDOW), Ok((1, 0)));
}

#[test]
fn twap_overflow_is_detected() {
    let state = state_of(vec![(0, 0, 0), (10, i128::MAX, 0), (20, 0, 0)]);
    // window start at 5: (i128::MAX - 0) * 5 overflows
    assert!(!twap_in_range(&state, 20, 15));
    assert!(twap_in_range(&state, 20, 10));
}

#[test]
fn zero_elapsed_with_extreme_reserves_changes_nothing() {
    let mut state = OracleState::new();
    let mut price_a: i128 = 1;
    let mut price_b: i128 = 2;
    update_cumulative_prices(&mut state, 5, -1, i128::MIN, 0, &mut price_a, &mut price_b);
    assert_eq!((price_a, price_b), (1, 2));
    assert!(state.observations.is_empty());
}
