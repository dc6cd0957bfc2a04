use vstd::prelude::*;

use crate::identity::Identity;

verus! {

/// A record appended to the ledger's event log by a mutating operation.
/// The log is append-only and its order is the commit order; the hosting
/// environment drains it to whatever externally observable sink it offers.
/// Provider withdrawals and initialization append nothing, matching the
/// operations' documented behaviour.
#[derive(PartialEq, Eq, Debug)]
pub enum MarketEvent {
    /// A new service was listed.
    ServiceRegistered { service_id: u64, owner: Identity, name: String, price_per_call: u64 },
    /// A service was invoked and paid for.
    ServiceCalled { service_id: u64, caller: Identity, price: u64 },
    /// A caller recorded a rating.
    ServiceRated { service_id: u64, rater: Identity, rating: u64 },
    /// The platform owner collected the accrued fees.
    PlatformFeesWithdrawn { owner: Identity, amount: u64 },
}

} // verus!
