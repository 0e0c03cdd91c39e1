use vstd::prelude::*;

verus! {

/// Every way an operation on a sale or a buyer's record can be refused.
/// A refused operation leaves all records unchanged.
#[derive(Clone, Copy, Debug, PartialEq, Eq, Structural)]
pub enum PresaleError {
    /// The caller is not the admin of the sale, or not the owner of the record.
    Unauthorized,
    /// The request is malformed (zero payment, inconsistent configuration).
    NotAllowed,
    /// A buyer's running totals would not fit in 64 bits.
    MathOverflow,
    /// A one-time admin withdrawal was already made.
    AlreadyMarked,
    /// Purchases are not open: the sale was never started.
    PresaleNotStarted,
    /// The sale window has elapsed or the sale was ended.
    PresaleEnded,
    /// The buyer already settled (claimed tokens or took a refund).
    AlreadyClaimed,
    /// The sale is live already.
    AlreadyLive,
    /// Reserved: a requested amount does not match the record.
    TokenAmountMismatch,
    /// Reserved: not enough funds for the request.
    InsufficientFund,
    /// The sale has not ended yet.
    PresaleNotEnded,
    /// The purchase would take the amount sold over the hard cap.
    HardCapped,
    /// The soft cap was not reached: tokens cannot be claimed.
    SoftCapNotReached,
    /// The soft cap was reached: payments cannot be refunded.
    SoftCapReached,
    /// A price computation overflowed or divided by a zero price.
    CalculationOverflow,
    /// The purchase would take the amount sold over the deposited inventory.
    ExceedsDepositAmount,
    /// The payment cannot be converted into tokens in full.
    ExactPaymentRequired,
}

/// The families that the errors fall into.
#[derive(Clone, Copy, Debug, PartialEq, Eq, Structural)]
pub enum ErrorKind {
    Authorization,
    LifecycleViolation,
    CapViolation,
    CapUnmet,
    AlreadySettled,
    ArithmeticFault,
    InventoryExhausted,
    InvalidRequest,
}

pub open spec fn kind_of(e: PresaleError) -> ErrorKind {
    match e {
        PresaleError::Unauthorized => ErrorKind::Authorization,
        PresaleError::PresaleNotStarted | PresaleError::PresaleEnded | PresaleError::AlreadyLive
        | PresaleError::PresaleNotEnded => ErrorKind::LifecycleViolation,
        PresaleError::HardCapped | PresaleError::ExceedsDepositAmount => ErrorKind::CapViolation,
        PresaleError::SoftCapNotReached | PresaleError::SoftCapReached => ErrorKind::CapUnmet,
        PresaleError::AlreadyClaimed | PresaleError::AlreadyMarked => ErrorKind::AlreadySettled,
        PresaleError::MathOverflow | PresaleError::CalculationOverflow => ErrorKind::ArithmeticFault,
        PresaleError::ExactPaymentRequired | PresaleError::InsufficientFund => ErrorKind::InventoryExhausted,
        PresaleError::NotAllowed | PresaleError::TokenAmountMismatch => ErrorKind::InvalidRequest,
    }
}

impl PresaleError {
    /// The family of this error.
    pub fn kind(&self) -> (r: ErrorKind)
        ensures
            r == kind_of(*self),
    {
        match self {
            PresaleError::Unauthorized => ErrorKind::Authorization,
            PresaleError::PresaleNotStarted | PresaleError::PresaleEnded
            | PresaleError::AlreadyLive | PresaleError::PresaleNotEnded => ErrorKind::LifecycleViolation,
            PresaleError::HardCapped | PresaleError::ExceedsDepositAmount => ErrorKind::CapViolation,
            PresaleError::SoftCapNotReached | PresaleError::SoftCapReached => ErrorKind::CapUnmet,
            PresaleError::AlreadyClaimed | PresaleError::AlreadyMarked => ErrorKind::AlreadySettled,
            PresaleError::MathOverflow | PresaleError::CalculationOverflow => ErrorKind::ArithmeticFault,
            PresaleError::ExactPaymentRequired | PresaleError::InsufficientFund => ErrorKind::InventoryExhausted,
            PresaleError::NotAllowed | PresaleError::TokenAmountMismatch => ErrorKind::InvalidRequest,
        }
    }
}

} // verus!
