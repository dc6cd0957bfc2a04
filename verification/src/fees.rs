use vstd::prelude::*;

verus! {

/// The platform's percentage cut of each paid call, fixed at initialization.
pub const PLATFORM_FEE_PERCENT: u64 = 5;

/// The platform's cut of one paid call: `price * fee_percent / 100`,
/// rounded down by integer division.
pub open spec fn platform_fee_of(price: int, fee_percent: int) -> int {
    (price * fee_percent) / 100
}

/// The provider's share of one paid call: what is left of the price after
/// the platform takes its cut.
pub open spec fn provider_revenue_of(price: int, fee_percent: int) -> int {
    price - platform_fee_of(price, fee_percent)
}

/// Fee split exactness: for every price and every fee percentage up to 100,
/// the platform fee and the provider share are each within [0, price] and
/// sum back to the price exactly, so no value is created or lost by a split.
pub proof fn lemma_fee_split(price: int, fee_percent: int)
    requires
        0 <= price,
        0 <= fee_percent <= 100,
    ensures
        platform_fee_of(price, fee_percent) + provider_revenue_of(price, fee_percent) == price,
        0 <= platform_fee_of(price, fee_percent) <= price,
        0 <= provider_revenue_of(price, fee_percent) <= price,
{
    assert(0 <= (price * fee_percent) / 100 <= price) by (nonlinear_arith)
        requires
            0 <= price,
            0 <= fee_percent <= 100,
    ;
}

/// Splits one call's price into (platform fee, provider share). The product
/// `price * fee_percent` is checked against the 64-bit accounting width
/// before dividing; a price whose product does not fit is rejected rather
/// than silently wrapped.
pub fn split_price(price: u64, fee_percent: u64) -> (r: Option<(u64, u64)>)
    requires
        fee_percent <= 100,
    ensures
        r is Some <==> price * fee_percent <= u64::MAX,
        r matches Some(parts) ==> ({
            &&& parts.0 == platform_fee_of(price as int, fee_percent as int)
            &&& parts.1 == provider_revenue_of(price as int, fee_percent as int)
            &&& parts.0 + parts.1 == price
        }),
{
    match price.checked_mul(fee_percent) {
        None => None,
        Some(product) => {
            let fee = product / 100;
            proof {
                lemma_fee_split(price as int, fee_percent as int);
            }
            Some((fee, price - fee))
        },
    }
}

} // verus!
