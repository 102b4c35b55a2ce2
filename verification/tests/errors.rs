use coralswap_pair::errors::{FactoryError, OracleError, PairError};

#[test]
fn pair_error_codes() {
    assert_eq!(PairError::AlreadyInitialized.code(), 100);
    assert_eq!(PairError::Locked.code(), 106);
    assert_eq!(PairError::FeeOverflow.code(), 116);
    assert_eq!(PairError::FlashLoanFeeTooHigh.code(), 118);
    assert_eq!(PairError::from_code(107), Some(PairError::FlashLoanNotRepaid));
    assert_eq!(PairError::from_code(99), None);
    assert_eq!(PairError::from_code(119), None);
}

#[test]
fn oracle_error_codes() {
    assert_eq!(OracleError::WindowTooShort.code(), 200);
    assert_eq!(OracleError::WindowTooLong.code(), 201);
    assert_eq!(OracleError::from_code(201), Some(OracleError::WindowTooLong));
    assert_eq!(OracleError::from_code(202), None);
}

#[test]
fn factory_error_codes() {
    assert_eq!(FactoryError::AlreadyInitialized.code(), 1);
    assert_eq!(FactoryError::InvalidFeeRecipient.code(), 15);
    assert_eq!(FactoryError::from_code(8), Some(FactoryError::IdenticalTokens));
    assert_eq!(FactoryError::from_code(0), None);
}

#[test]
fn error_codes_round_trip() {
    for code in 0..300u32 {
        if let Some(e) = PairError::from_code(code) {
            assert_eq!(e.code(), code);
        }
        if let Some(e) = OracleError::from_code(code) {
            assert_eq!(e.code(), code);
        }
        if let Some(e) = FactoryError::from_code(code) {
            assert_eq!(e.code(), code);
        }
    }
    assert_eq!(PairError::from_code(PairError::InvalidEmaAlpha.code()), Some(PairError::InvalidEmaAlpha));
}

#[test]
fn errors_order_by_code() {
    assert!(PairError::AlreadyInitialized < PairError::FlashLoanFeeTooHigh);
    assert!(OracleError::WindowTooShort < OracleError::WindowTooLong);
}
