use vstd::prelude::*;

verus! {

/// Every way an operation on the ledger can be rejected. Each rejection is
/// detected before any state is mutated, so a failed operation leaves the
/// ledger exactly as it found it.
#[derive(Clone, Copy, PartialEq, Eq, Structural, Debug)]
pub enum MarketError {
    /// Registration: the name or the endpoint is empty.
    InvalidInput,
    /// Registration: the price per call is zero.
    InvalidPrice,
    /// Registration: the category is outside the defined range.
    InvalidCategory,
    /// Call: no service is registered under the given id.
    ServiceNotFound,
    /// Call: the service is not active.
    ServiceInactive,
    /// Call: the attached payment is below the service's price per call.
    InsufficientPayment,
    /// Rating: the rating is outside the closed range [1, 5].
    InvalidRating,
    /// Provider withdrawal: the caller is not the service's owner.
    NotOwner,
    /// Provider withdrawal: the service has no claimable balance.
    NoPendingRevenue,
    /// Platform withdrawal: the caller is not the platform owner.
    NotPlatformOwner,
    /// Platform withdrawal: no fees have accrued since the last payout.
    NoFeesCollected,
    /// A counter or the fee product would exceed the 64-bit accounting width.
    ArithmeticOverflow,
}

impl MarketError {
    /// The reason reported to the caller, one distinct line per rejection.
    pub fn message(&self) -> &'static str {
        match self {
            MarketError::InvalidInput => "Invalid inputs",
            MarketError::InvalidPrice => "Price must be > 0",
            MarketError::InvalidCategory => "Invalid category",
            MarketError::ServiceNotFound => "Service not found",
            MarketError::ServiceInactive => "Service inactive",
            MarketError::InsufficientPayment => "Insufficient payment",
            MarketError::InvalidRating => "Rating must be 1-5",
            MarketError::NotOwner => "Not service owner",
            MarketError::NoPendingRevenue => "No pending revenue",
            MarketError::NotPlatformOwner => "Not platform owner",
            MarketError::NoFeesCollected => "No fees collected",
            MarketError::ArithmeticOverflow => "Arithmetic overflow",
        }
    }
}

} // verus!
