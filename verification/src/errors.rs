//! Error codes of the pair and factory contracts.
use vstd::prelude::*;

verus! {

/// Errors returned by the pair contract.
#[derive(Copy, Clone, Debug, PartialEq, Eq, Structural, PartialOrd, Ord)]
pub enum PairError {
    AlreadyInitialized,
    NotInitialized,
    InsufficientLiquidity,
    InsufficientInputAmount,
    InsufficientOutputAmount,
    InvalidK,
    Locked,
    FlashLoanNotRepaid,
    FlashPayloadTooLarge,
    Paused,
    Overflow,
    ZeroAddress,
    InsufficientLiquidityMinted,
    InsufficientLiquidityBurned,
    InvalidInput,
    InvalidEmaAlpha,
    FeeOverflow,
    FlashCallbackFailed,
    FlashLoanFeeTooHigh,
}

impl PairError {
    /// The contract error code that the host reports for this error.
    pub open spec fn spec_code(self) -> u32 {
        match self {
            PairError::AlreadyInitialized => 100,
            PairError::NotInitialized => 101,
            PairError::InsufficientLiquidity => 102,
            PairError::InsufficientInputAmount => 103,
            PairError::InsufficientOutputAmount => 104,
            PairError::InvalidK => 105,
            PairError::Locked => 106,
            PairError::FlashLoanNotRepaid => 107,
            PairError::FlashPayloadTooLarge => 108,
            PairError::Paused => 109,
            PairError::Overflow => 110,
            PairError::ZeroAddress => 111,
            PairError::InsufficientLiquidityMinted => 112,
            PairError::InsufficientLiquidityBurned => 113,
            PairError::InvalidInput => 114,
            PairError::InvalidEmaAlpha => 115,
            PairError::FeeOverflow => 116,
            PairError::FlashCallbackFailed => 117,
            PairError::FlashLoanFeeTooHigh => 118,
        }
    }

    /// The error that a contract error code stands for, if any.
    pub open spec fn spec_from_code(code: u32) -> Option<PairError> {
        match code {
            100 => Some(PairError::AlreadyInitialized),
            101 => Some(PairError::NotInitialized),
            102 => Some(PairError::InsufficientLiquidity),
            103 => Some(PairError::InsufficientInputAmount),
            104 => Some(PairError::InsufficientOutputAmount),
            105 => Some(PairError::InvalidK),
            106 => Some(PairError::Locked),
            107 => Some(PairError::FlashLoanNotRepaid),
            108 => Some(PairError::FlashPayloadTooLarge),
            109 => Some(PairError::Paused),
            110 => Some(PairError::Overflow),
            111 => Some(PairError::ZeroAddress),
            112 => Some(PairError::InsufficientLiquidityMinted),
            113 => Some(PairError::InsufficientLiquidityBurned),
            114 => Some(PairError::InvalidInput),
            115 => Some(PairError::InvalidEmaAlpha),
            116 => Some(PairError::FeeOverflow),
            117 => Some(PairError::FlashCallbackFailed),
            118 => Some(PairError::FlashLoanFeeTooHigh),
            _ => None,
        }
    }

    /// Returns the contract error code of this error: the fixed discriminant the
    /// contract declares for it.
    pub fn code(&self) -> (c: u32)
        ensures
            c == self.spec_code(),
            *self == PairError::AlreadyInitialized ==> c == 100,
            *self == PairError::NotInitialized ==> c == 101,
            *self == PairError::InsufficientLiquidity ==> c == 102,
            *self == PairError::InsufficientInputAmount ==> c == 103,
            *self == PairError::InsufficientOutputAmount ==> c == 104,
            *self == PairError::InvalidK ==> c == 105,
            *self == PairError::Locked ==> c == 106,
            *self == PairError::FlashLoanNotRepaid ==> c == 107,
            *self == PairError::FlashPayloadTooLarge ==> c == 108,
            *self == PairError::Paused ==> c == 109,
            *self == PairError::Overflow ==> c == 110,
            *self == PairError::ZeroAddress ==> c == 111,
            *self == PairError::InsufficientLiquidityMinted ==> c == 112,
            *self == PairError::InsufficientLiquidityBurned ==> c == 113,
            *self == PairError::InvalidInput ==> c == 114,
            *self == PairError::InvalidEmaAlpha ==> c == 115,
            *self == PairError::FeeOverflow ==> c == 116,
            *self == PairError::FlashCallbackFailed ==> c == 117,
            *self == PairError::FlashLoanFeeTooHigh ==> c == 118,
    {
        match self {
            PairError::AlreadyInitialized => 100,
            PairError::NotInitialized => 101,
            PairError::InsufficientLiquidity => 102,
            PairError::InsufficientInputAmount => 103,
            PairError::InsufficientOutputAmount => 104,
            PairError::InvalidK => 105,
            PairError::Locked => 106,
            PairError::FlashLoanNotRepaid => 107,
            PairError::FlashPayloadTooLarge => 108,
            PairError::Paused => 109,
            PairError::Overflow => 110,
            PairError::ZeroAddress => 111,
            PairError::InsufficientLiquidityMinted => 112,
            PairError::InsufficientLiquidityBurned => 113,
            PairError::InvalidInput => 114,
            PairError::InvalidEmaAlpha => 115,
            PairError::FeeOverflow => 116,
            PairError::FlashCallbackFailed => 117,
            PairError::FlashLoanFeeTooHigh => 118,
        }
    }

    /// Returns the error that `code` stands for, or `None` for a code that is not one of this type's.
    pub fn from_code(code: u32) -> (e: Option<PairError>)
        ensures
            e == Self::spec_from_code(code),
            code == 100 ==> e == Some(PairError::AlreadyInitialized),
            code == 101 ==> e == Some(PairError::NotInitialized),
            code == 102 ==> e == Some(PairError::InsufficientLiquidity),
            code == 103 ==> e == Some(PairError::InsufficientInputAmount),
            code == 104 ==> e == Some(PairError::InsufficientOutputAmount),
            code == 105 ==> e == Some(PairError::InvalidK),
            code == 106 ==> e == Some(PairError::Locked),
            code == 107 ==> e == Some(PairError::FlashLoanNotRepaid),
            code == 108 ==> e == Some(PairError::FlashPayloadTooLarge),
            code == 109 ==> e == Some(PairError::Paused),
            code == 110 ==> e == Some(PairError::Overflow),
            code == 111 ==> e == Some(PairError::ZeroAddress),
            code == 112 ==> e == Some(PairError::InsufficientLiquidityMinted),
            code == 113 ==> e == Some(PairError::InsufficientLiquidityBurned),
            code == 114 ==> e == Some(PairError::InvalidInput),
            code == 115 ==> e == Some(PairError::InvalidEmaAlpha),
            code == 116 ==> e == Some(PairError::FeeOverflow),
            code == 117 ==> e == Some(PairError::FlashCallbackFailed),
            code == 118 ==> e == Some(PairError::FlashLoanFeeTooHigh),
            !(100 <= code <= 118) ==> e is None,
    {
        match code {
            100 => Some(PairError::AlreadyInitialized),
            101 => Some(PairError::NotInitialized),
            102 => Some(PairError::InsufficientLiquidity),
            103 => Some(PairError::InsufficientInputAmount),
            104 => Some(PairError::InsufficientOutputAmount),
            105 => Some(PairError::InvalidK),
            106 => Some(PairError::Locked),
            107 => Some(PairError::FlashLoanNotRepaid),
            108 => Some(PairError::FlashPayloadTooLarge),
            109 => Some(PairError::Paused),
            110 => Some(PairError::Overflow),
            111 => Some(PairError::ZeroAddress),
            112 => Some(PairError::InsufficientLiquidityMinted),
            113 => Some(PairError::InsufficientLiquidityBurned),
            114 => Some(PairError::InvalidInput),
            115 => Some(PairError::InvalidEmaAlpha),
            116 => Some(PairError::FeeOverflow),
            117 => Some(PairError::FlashCallbackFailed),
            118 => Some(PairError::FlashLoanFeeTooHigh),
            _ => None,
        }
    }
}

/// Every PairError survives the trip through its contract error code, and a code
/// maps back to an error only where that error's code is the code.
pub proof fn lemma_pair_code_round_trip(e: PairError, code: u32)
    ensures
        PairError::spec_from_code(e.spec_code()) == Some(e),
        PairError::spec_from_code(code) matches Some(f) ==> f.spec_code() == code,
{
}

/// Errors returned by the price oracle.
#[derive(Copy, Clone, Debug, PartialEq, Eq, Structural, PartialOrd, Ord)]
pub enum OracleError {
    WindowTooShort,
    WindowTooLong,
}

impl OracleError {
    /// The contract error code that the host reports for this error.
    pub open spec fn spec_code(self) -> u32 {
        match self {
            OracleError::WindowTooShort => 200,
            OracleError::WindowTooLong => 201,
        }
    }

    /// The error that a contract error code stands for, if any.
    pub open spec fn spec_from_code(code: u32) -> Option<OracleError> {
        match code {
            200 => Some(OracleError::WindowTooShort),
            201 => Some(OracleError::WindowTooLong),
            _ => None,
        }
    }

    /// Returns the contract error code of this error: the fixed discriminant the
    /// contract declares for it.
    pub fn code(&self) -> (c: u32)
        ensures
            c == self.spec_code(),
            *self == OracleError::WindowTooShort ==> c == 200,
            *self == OracleError::WindowTooLong ==> c == 201,
    {
        match self {
            OracleError::WindowTooShort => 200,
            OracleError::WindowTooLong => 201,
        }
    }

    /// Returns the error that `code` stands for, or `None` for a code that is not one of this type's.
    pub fn from_code(code: u32) -> (e: Option<OracleError>)
        ensures
            e == Self::spec_from_code(code),
            code == 200 ==> e == Some(OracleError::WindowTooShort),
            code == 201 ==> e == Some(OracleError::WindowTooLong),
            !(200 <= code <= 201) ==> e is None,
    {
        match code {
            200 => Some(OracleError::WindowTooShort),
            201 => Some(OracleError::WindowTooLong),
            _ => None,
        }
    }
}

/// Every OracleError survives the trip through its contract error code, and a code
/// maps back to an error only where that error's code is the code.
pub proof fn lemma_oracle_code_round_trip(e: OracleError, code: u32)
    ensures
        OracleError::spec_from_code(e.spec_code()) == Some(e),
        OracleError::spec_from_code(code) matches Some(f) ==> f.spec_code() == code,
{
}

/// Errors returned by the factory contract.
#[derive(Copy, Clone, Debug, PartialEq, Eq, Structural, PartialOrd, Ord)]
pub enum FactoryError {
    AlreadyInitialized,
    NotInitialized,
    PairExists,
    InvalidSignerCount,
    InsufficientSignatures,
    TimelockNotExpired,
    ProtocolPaused,
    IdenticalTokens,
    UpgradeTimelockNotExpired,
    Unauthorized,
    UpgradeAlreadyPending,
    NoPendingUpgrade,
    LimitTooHigh,
    FeeTooHigh,
    InvalidFeeRecipient,
}

impl FactoryError {
    /// The contract error code that the host reports for this error.
    pub open spec fn spec_code(self) -> u32 {
        match self {
            FactoryError::AlreadyInitialized => 1,
            FactoryError::NotInitialized => 2,
            FactoryError::PairExists => 3,
            FactoryError::InvalidSignerCount => 4,
            FactoryError::InsufficientSignatures => 5,
            FactoryError::TimelockNotExpired => 6,
            FactoryError::ProtocolPaused => 7,
            FactoryError::IdenticalTokens => 8,
            FactoryError::UpgradeTimelockNotExpired => 9,
            FactoryError::Unauthorized => 10,
            FactoryError::UpgradeAlreadyPending => 11,
            FactoryError::NoPendingUpgrade => 12,
            FactoryError::LimitTooHigh => 13,
            FactoryError::FeeTooHigh => 14,
            FactoryError::InvalidFeeRecipient => 15,
        }
    }

    /// The error that a contract error code stands for, if any.
    pub open spec fn spec_from_code(code: u32) -> Option<FactoryError> {
        match code {
            1 => Some(FactoryError::AlreadyInitialized),
            2 => Some(FactoryError::NotInitialized),
            3 => Some(FactoryError::PairExists),
            4 => Some(FactoryError::InvalidSignerCount),
            5 => Some(FactoryError::InsufficientSignatures),
            6 => Some(FactoryError::TimelockNotExpired),
            7 => Some(FactoryError::ProtocolPaused),
            8 => Some(FactoryError::IdenticalTokens),
            9 => Some(FactoryError::UpgradeTimelockNotExpired),
            10 => Some(FactoryError::Unauthorized),
            11 => Some(FactoryError::UpgradeAlreadyPending),
            12 => Some(FactoryError::NoPendingUpgrade),
            13 => Some(FactoryError::LimitTooHigh),
            14 => Some(FactoryError::FeeTooHigh),
            15 => Some(FactoryError::InvalidFeeRecipient),
            _ => None,
        }
    }

    /// Returns the contract error code of this error: the fixed discriminant the
    /// contract declares for it.
    pub fn code(&self) -> (c: u32)
        ensures
            c == self.spec_code(),
            *self == FactoryError::AlreadyInitialized ==> c == 1,
            *self == FactoryError::NotInitialized ==> c == 2,
            *self == FactoryError::PairExists ==> c == 3,
            *self == FactoryError::InvalidSignerCount ==> c == 4,
            *self == FactoryError::InsufficientSignatures ==> c == 5,
            *self == FactoryError::TimelockNotExpired ==> c == 6,
            *self == FactoryError::ProtocolPaused ==> c == 7,
            *self == FactoryError::IdenticalTokens ==> c == 8,
            *self == FactoryError::UpgradeTimelockNotExpired ==> c == 9,
            *self == FactoryError::Unauthorized ==> c == 10,
            *self == FactoryError::UpgradeAlreadyPending ==> c == 11,
            *self == FactoryError::NoPendingUpgrade ==> c == 12,
            *self == FactoryError::LimitTooHigh ==> c == 13,
            *self == FactoryError::FeeTooHigh ==> c == 14,
            *self == FactoryError::InvalidFeeRecipient ==> c == 15,
    {
        match self {
            FactoryError::AlreadyInitialized => 1,
            FactoryError::NotInitialized => 2,
            FactoryError::PairExists => 3,
            FactoryError::InvalidSignerCount => 4,
            FactoryError::InsufficientSignatures => 5,
            FactoryError::TimelockNotExpired => 6,
            FactoryError::ProtocolPaused => 7,
            FactoryError::IdenticalTokens => 8,
            FactoryError::UpgradeTimelockNotExpired => 9,
            FactoryError::Unauthorized => 10,
            FactoryError::UpgradeAlreadyPending => 11,
            FactoryError::NoPendingUpgrade => 12,
            FactoryError::LimitTooHigh => 13,
            FactoryError::FeeTooHigh => 14,
            FactoryError::InvalidFeeRecipient => 15,
        }
    }

    /// Returns the error that `code` stands for, or `None` for a code that is not one of this type's.
    pub fn from_code(code: u32) -> (e: Option<FactoryError>)
        ensures
            e == Self::spec_from_code(code),
            code == 1 ==> e == Some(FactoryError::AlreadyInitialized),
            code == 2 ==> e == Some(FactoryError::NotInitialized),
            code == 3 ==> e == Some(FactoryError::PairExists),
            code == 4 ==> e == Some(FactoryError::InvalidSignerCount),
            code == 5 ==> e == Some(FactoryError::InsufficientSignatures),
            code == 6 ==> e == Some(FactoryError::TimelockNotExpired),
            code == 7 ==> e == Some(FactoryError::ProtocolPaused),
            code == 8 ==> e == Some(FactoryError::IdenticalTokens),
            code == 9 ==> e == Some(FactoryError::UpgradeTimelockNotExpired),
            code == 10 ==> e == Some(FactoryError::Unauthorized),
            code == 11 ==> e == Some(FactoryError::UpgradeAlreadyPending),
            code == 12 ==> e == Some(FactoryError::NoPendingUpgrade),
            code == 13 ==> e == Some(FactoryError::LimitTooHigh),
            code == 14 ==> e == Some(FactoryError::FeeTooHigh),
            code == 15 ==> e == Some(FactoryError::InvalidFeeRecipient),
            !(1 <= code <= 15) ==> e is None,
    {
        match code {
            1 => Some(FactoryError::AlreadyInitialized),
            2 => Some(FactoryError::NotInitialized),
            3 => Some(FactoryError::PairExists),
            4 => Some(FactoryError::InvalidSignerCount),
            5 => Some(FactoryError::InsufficientSignatures),
            6 => Some(FactoryError::TimelockNotExpired),
            7 => Some(FactoryError::ProtocolPaused),
            8 => Some(FactoryError::IdenticalTokens),
            9 => Some(FactoryError::UpgradeTimelockNotExpired),
            10 => Some(FactoryError::Unauthorized),
            11 => Some(FactoryError::UpgradeAlreadyPending),
            12 => Some(FactoryError::NoPendingUpgrade),
            13 => Some(FactoryError::LimitTooHigh),
            14 => Some(FactoryError::FeeTooHigh),
            15 => Some(FactoryError::InvalidFeeRecipient),
            _ => None,
        }
    }
}

/// Every FactoryError survives the trip through its contract error code, and a code
/// maps back to an error only where that error's code is the code.
pub proof fn lemma_factory_code_round_trip(e: FactoryError, code: u32)
    ensures
        FactoryError::spec_from_code(e.spec_code()) == Some(e),
        FactoryError::spec_from_code(code) matches Some(f) ==> f.spec_code() == code,
{
}

} // verus!
