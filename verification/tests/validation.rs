use arbi_agents::errors::MarketError;
use arbi_agents::identity::Identity;
use arbi_agents::market::AgentMarket;

fn id(n: u128) -> Identity {
    Identity { id: n }
}

fn initialized_market() -> AgentMarket {
    let mut m = AgentMarket::new();
    m.initialize(id(100));
    m
}

#[test]
fn register_rejects_empty_name() {
    let mut m = initialized_market();
    let r = m.register_service(id(1), "".to_string(), "http://x".to_string(), 0, 100);
    assert_eq!(r, Err(MarketError::InvalidInput));
    assert_eq!(m.total_services_count(), 0);
}

#[test]
fn register_rejects_empty_endpoint() {
    let mut m = initialized_market();
    let r = m.register_service(id(1), "svc".to_string(), "".to_string(), 0, 100);
    assert_eq!(r, Err(MarketError::InvalidInput));
}

#[test]
fn register_rejects_zero_price() {
    let mut m = initialized_market();
    let r = m.register_service(id(1), "svc".to_string(), "http://x".to_string(), 0, 0);
    assert_eq!(r, Err(MarketError::InvalidPrice));
}

#[test]
fn register_rejects_unknown_category() {
    let mut m = initialized_market();
    let r = m.register_service(id(1), "svc".to_string(), "http://x".to_string(), 2, 100);
    assert_eq!(r, Err(MarketError::InvalidCategory));
    // both defined categories are accepted
    let r0 = m.register_service(id(1), "svc".to_string(), "http://x".to_string(), 0, 100);
    let r1 = m.register_service(id(1), "svc".to_string(), "http://x".to_string(), 1, 100);
    assert_eq!(r0, Ok(1));
    assert_eq!(r1, Ok(2));
}

#[test]
fn call_unregistered_service_not_found() {
    let mut m = initialized_market();
    assert_eq!(m.call_service(id(7), 0, 100), Err(MarketError::ServiceNotFound));
    assert_eq!(m.call_service(id(7), 1, 100), Err(MarketError::ServiceNotFound));
}

#[test]
fn rating_range_is_enforced() {
    let mut m = initialized_market();
    m.register_service(id(1), "svc".to_string(), "http://x".to_string(), 0, 100)
        .unwrap();
    let rater = id(7);
    for bad in [0u64, 6, 100] {
        assert_eq!(m.rate_service(rater, 1, bad), Err(MarketError::InvalidRating));
    }
    for good in 1u64..=5u64 {
        assert_eq!(m.rate_service(rater, 1, good), Ok(()));
        assert_eq!(m.get_rating(1, rater), good);
    }
    // the latest rating overwrote all the earlier ones: one entry per rater
    assert_eq!(m.ratings.len(), 1);
    // another rater's rating stands on its own
    assert_eq!(m.rate_service(id(8), 1, 2), Ok(()));
    assert_eq!(m.get_rating(1, id(8)), 2);
    assert_eq!(m.get_rating(1, rater), 5);
}

#[test]
fn rating_an_unregistered_service_succeeds() {
    let mut m = initialized_market();
    assert_eq!(m.rate_service(id(7), 42, 3), Ok(()));
    assert_eq!(m.get_rating(42, id(7)), 3);
}

#[test]
fn rating_defaults_to_zero() {
    let m = initialized_market();
    assert_eq!(m.get_rating(1, id(7)), 0);
}

#[test]
fn initialize_is_idempotent() {
    let mut m = AgentMarket::new();
    let first = id(100);
    let second = id(200);
    m.initialize(first);
    m.initialize(second);
    assert_eq!(m.platform_owner, first);
    assert_eq!(m.platform_fee_percent, 5);
    // only the first owner may collect fees
    m.register_service(id(1), "svc".to_string(), "http://x".to_string(), 0, 100)
        .unwrap();
    m.call_service(id(2), 1, 100).unwrap();
    assert_eq!(m.withdraw_platform_fees(second), Err(MarketError::NotPlatformOwner));
    assert_eq!(m.withdraw_platform_fees(first), Ok(5));
}

#[test]
fn get_service_reads_record_or_zeroes() {
    let mut m = initialized_market();
    m.register_service(id(1), "svc".to_string(), "http://x".to_string(), 1, 100)
        .unwrap();
    let (owner, name, endpoint, price, calls, reputation, active) = m.get_service(1);
    assert_eq!(owner, id(1));
    assert_eq!(name, "svc");
    assert_eq!(endpoint, "http://x");
    assert_eq!(price, 100);
    assert_eq!(calls, 0);
    assert_eq!(reputation, 100);
    assert!(active);
    let (owner, name, endpoint, price, calls, reputation, active) = m.get_service(2);
    assert_eq!(owner, Identity { id: 0 });
    assert_eq!(name, "");
    assert_eq!(endpoint, "");
    assert_eq!((price, calls, reputation, active), (0, 0, 0, false));
}

#[test]
fn error_messages_are_distinct() {
    let all = [
        MarketError::InvalidInput,
        MarketError::InvalidPrice,
        MarketError::InvalidCategory,
        MarketError::ServiceNotFound,
        MarketError::ServiceInactive,
        MarketError::InsufficientPayment,
        MarketError::InvalidRating,
        MarketError::NotOwner,
        MarketError::NoPendingRevenue,
        MarketError::NotPlatformOwner,
        MarketError::NoFeesCollected,
        MarketError::ArithmeticOverflow,
    ];
    for (i, a) in all.iter().enumerate() {
        for (j, b) in all.iter().enumerate() {
            assert_eq!(i == j, a.message() == b.message());
        }
    }
    assert_eq!(MarketError::InsufficientPayment.message(), "Insufficient payment");
    assert_eq!(MarketError::InvalidRating.message(), "Rating must be 1-5");
}

#[test]
fn stats_of_unregistered_service_are_zero() {
    let m = initialized_market();
    assert_eq!(m.get_service_stats(9), (0, 0, 0));
}
