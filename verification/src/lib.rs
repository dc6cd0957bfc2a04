//! A service-marketplace accounting ledger.
//!
//! The ledger records service listings, meters paid invocations, splits each
//! payment between the service provider and the platform, accrues withdrawable
//! balances, and stores caller ratings. The hosting execution environment
//! (caller identity, attached value, durable storage, event delivery) is out of
//! scope: callers hand the ledger plain values and read plain values back.
//!
//! Every mutating operation takes the ledger by exclusive reference and runs to
//! completion, so each invocation sees and leaves a consistent state; an
//! operation either commits all of its writes or, on a rejection, none.

pub mod errors;
pub mod events;
pub mod fees;
pub mod identity;
pub mod market;
pub mod ratings;
