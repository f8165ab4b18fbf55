use crate::state::Coin;
use vstd::prelude::*;

verus! {

/// Reasons for which a payment attached to a message is refused.
#[derive(Clone, Debug, PartialEq, Eq)]
pub enum PaymentError {
    MissingDenom(String),
    ExtraDenom(String),
    MultipleDenoms,
    NoFunds,
    NonPayable,
}

/// Errors of the per-stream threshold bookkeeping.
#[derive(Clone, Copy, Debug, PartialEq, Eq, Structural)]
pub enum ThresholdError {
    ThresholdNotReached,
    ThresholdReached,
    ThresholdNotSet,
    ThresholdZero,
}

/// Errors of the payment checker of the stream controller.
#[derive(Clone, Debug, PartialEq, Eq)]
pub enum CustomPaymentError {
    InsufficientFunds { expected: Vec<Coin>, actual: Vec<Coin> },
}

/// Every way in which an operation on a stream can be refused.
#[derive(Clone, Debug, PartialEq, Eq)]
pub enum ContractError {
    Std(String),
    Overflow,
    Payment(PaymentError),
    CustomPayment(CustomPaymentError),
    DivideByZeroError,
    ConversionOverflowError,
    CannotMigrate { previous_contract: String },
    NoDistribution,
    Unauthorized,
    InvalidExitFeePercent,
    InvalidStreamCreationFee,
    NoFundsSent,
    InvalidFunds,
    InDenomIsNotAccepted,
    SameDenomOnEachSide,
    ZeroOutSupply,
    StreamOutSupplyFundsRequired,
    StreamCreationFeeRequired,
    DecreaseAmountExceeds(u128),
    WithdrawAmountExceedsBalance(u128),
    InvalidWithdrawAmount,
    StreamNotEnded,
    StreamDurationTooShort,
    StreamStartsTooSoon,
    StreamInvalidStartTime,
    StreamInvalidEndTime,
    StreamInvalidBootstrappingStartTime,
    StreamBootstrappingDurationTooShort,
    StreamWaitingDurationTooShort,
    StreamEnded,
    StreamNotStarted,
    InvalidDecimals,
    StreamPaused,
    StreamAlreadyPaused,
    StreamNotPaused,
    StreamNotCancelled,
    StreamIsCancelled,
    StreamKillswitchActive,
    StreamAlreadyFinalized,
    StreamNotWaiting,
    StreamNameTooShort,
    StreamNameTooLong,
    InvalidStreamName,
    StreamUrlTooShort,
    StreamUrlTooLong,
    InvalidStreamUrl,
    InvalidCreatePool,
    InvalidPoolConfig,
    InvalidSalt,
    SubscriberAlreadyExited,
    ContractIsFrozen,
    OperationNotAllowed { current_status: String },
    ThresholdError(ThresholdError),
}

} // verus!
