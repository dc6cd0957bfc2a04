use arbi_agents::errors::MarketError;
use arbi_agents::events::MarketEvent;
use arbi_agents::identity::Identity;
use arbi_agents::market::AgentMarket;

fn id(n: u128) -> Identity {
    Identity { id: n }
}

fn market_with_service(price: u64) -> (AgentMarket, Identity, Identity) {
    let platform = id(100);
    let provider = id(1);
    let mut m = AgentMarket::new();
    m.initialize(platform);
    let r = m.register_service(
        provider,
        "svc".to_string(),
        "http://x".to_string(),
        0,
        price,
    );
    assert_eq!(r, Ok(1));
    (m, platform, provider)
}

#[test]
fn sequential_ids() {
    let mut m = AgentMarket::new();
    m.initialize(id(100));
    for expected in 1u64..=3u64 {
        let r = m.register_service(
            id(expected as u128),
            format!("svc{}", expected),
            "http://x".to_string(),
            1,
            10,
        );
        assert_eq!(r, Ok(expected));
        assert_eq!(m.total_services_count(), expected);
    }
}

#[test]
fn fee_split_exactness() {
    // fee_percent 5: floor division, fee + share == price
    for (price, fee) in [(100u64, 5u64), (99, 4), (20, 1), (19, 0), (1, 0)] {
        let (mut m, _, _) = market_with_service(price);
        let r = m.call_service(id(7), 1, price);
        assert!(r.is_ok());
        let (_, revenue, pending) = m.get_service_stats(1);
        assert_eq!(fee, price * 5 / 100);
        assert_eq!(revenue, price - fee);
        assert_eq!(pending, price - fee);
        assert_eq!(m.get_platform_fees(), fee);
    }
}

#[test]
fn fee_is_zero_before_initialization() {
    // a call metered before initialize runs sees a zero fee percent
    let mut m = AgentMarket::new();
    let r = m.register_service(id(1), "svc".to_string(), "http://x".to_string(), 0, 100);
    assert_eq!(r, Ok(1));
    assert!(m.call_service(id(2), 1, 100).is_ok());
    let (calls, revenue, pending) = m.get_service_stats(1);
    assert_eq!((calls, revenue, pending), (1, 100, 100));
    assert_eq!(m.get_platform_fees(), 0);
}

#[test]
fn revenue_conservation_over_calls() {
    let (mut m, _, provider) = market_with_service(100);
    for n in 1u64..=4u64 {
        assert!(m.call_service(id(7), 1, 100).is_ok());
        let (calls, revenue, pending) = m.get_service_stats(1);
        assert_eq!(calls, n);
        assert_eq!(revenue, 95 * n);
        assert_eq!(pending, 95 * n);
        assert!(pending <= revenue);
    }
    // withdrawal clears the claimable balance, not the lifetime revenue
    assert_eq!(m.withdraw_revenue(provider, 1), Ok(95 * 4));
    let (_, revenue, pending) = m.get_service_stats(1);
    assert_eq!(revenue, 95 * 4);
    assert_eq!(pending, 0);
    // later calls accrue on top of the lifetime counter
    assert!(m.call_service(id(7), 1, 100).is_ok());
    let (_, revenue, pending) = m.get_service_stats(1);
    assert_eq!(revenue, 95 * 5);
    assert_eq!(pending, 95);
}

#[test]
fn withdraw_twice_second_fails() {
    let (mut m, _, provider) = market_with_service(100);
    assert!(m.call_service(id(7), 1, 100).is_ok());
    assert_eq!(m.withdraw_revenue(provider, 1), Ok(95));
    assert_eq!(
        m.withdraw_revenue(provider, 1),
        Err(MarketError::NoPendingRevenue)
    );
}

#[test]
fn withdraw_by_non_owner_changes_nothing() {
    let (mut m, _, _) = market_with_service(100);
    assert!(m.call_service(id(7), 1, 100).is_ok());
    let before = m.get_service_stats(1);
    assert_eq!(m.withdraw_revenue(id(9), 1), Err(MarketError::NotOwner));
    assert_eq!(m.get_service_stats(1), before);
    assert_eq!(m.get_platform_fees(), 5);
}

#[test]
fn withdraw_unregistered_id_is_not_owner() {
    let (mut m, _, provider) = market_with_service(100);
    assert_eq!(m.withdraw_revenue(provider, 5), Err(MarketError::NotOwner));
}

#[test]
fn platform_fees_lifecycle() {
    let (mut m, platform, _) = market_with_service(100);
    assert_eq!(
        m.withdraw_platform_fees(platform),
        Err(MarketError::NoFeesCollected)
    );
    assert!(m.call_service(id(7), 1, 100).is_ok());
    assert!(m.call_service(id(8), 1, 100).is_ok());
    assert_eq!(
        m.withdraw_platform_fees(id(9)),
        Err(MarketError::NotPlatformOwner)
    );
    assert_eq!(m.get_platform_fees(), 10);
    assert_eq!(m.withdraw_platform_fees(platform), Ok(10));
    assert_eq!(m.get_platform_fees(), 0);
    assert_eq!(
        m.withdraw_platform_fees(platform),
        Err(MarketError::NoFeesCollected)
    );
}

#[test]
fn insufficient_payment_changes_nothing() {
    let (mut m, _, _) = market_with_service(100);
    let r = m.call_service(id(7), 1, 50);
    assert_eq!(r, Err(MarketError::InsufficientPayment));
    assert_eq!(m.get_service_stats(1), (0, 0, 0));
    assert_eq!(m.get_platform_fees(), 0);
}

#[test]
fn overpayment_is_accepted_but_only_price_is_split() {
    let (mut m, _, _) = market_with_service(100);
    assert!(m.call_service(id(7), 1, 250).is_ok());
    let (calls, revenue, pending) = m.get_service_stats(1);
    assert_eq!((calls, revenue, pending), (1, 95, 95));
    assert_eq!(m.get_platform_fees(), 5);
}

#[test]
fn fee_product_overflow_is_rejected() {
    let (mut m, _, _) = market_with_service(u64::MAX);
    let r = m.call_service(id(7), 1, u64::MAX);
    assert_eq!(r, Err(MarketError::ArithmeticOverflow));
    assert_eq!(m.get_service_stats(1), (0, 0, 0));
}

#[test]
fn counter_overflow_is_rejected_before_any_write() {
    // provider share per call: p - p*5/100 with p = 3e18 is 2.85e18, so a
    // seventh call would push the 64-bit lifetime counter past its width
    let price = 3_000_000_000_000_000_000u64;
    let share = price - price / 20;
    let (mut m, _, _) = market_with_service(price);
    for n in 1u64..=6u64 {
        assert!(m.call_service(id(7), 1, price).is_ok());
        let (calls, revenue, _) = m.get_service_stats(1);
        assert_eq!((calls, revenue), (n, share * n));
    }
    assert_eq!(m.call_service(id(7), 1, price), Err(MarketError::ArithmeticOverflow));
    let (calls, revenue, pending) = m.get_service_stats(1);
    assert_eq!((calls, revenue, pending), (6, share * 6, share * 6));
}

#[test]
fn full_marketplace_scenario() {
    let platform = id(100);
    let provider = id(1);
    let caller = id(2);
    let mut m = AgentMarket::new();
    m.initialize(platform);
    let r = m.register_service(
        provider,
        "svc".to_string(),
        "http://x".to_string(),
        0,
        100,
    );
    assert_eq!(r, Ok(1));
    let endpoint = m.call_service(caller, 1, 100).unwrap();
    assert_eq!(endpoint, "http://x");
    let (calls, revenue, pending) = m.get_service_stats(1);
    assert_eq!((calls, revenue, pending), (1, 95, 95));
    assert_eq!(m.get_platform_fees(), 5);
    assert_eq!(m.withdraw_revenue(provider, 1), Ok(95));
    let (_, revenue, pending) = m.get_service_stats(1);
    assert_eq!(revenue, 95);
    assert_eq!(pending, 0);
    assert_eq!(m.withdraw_platform_fees(platform), Ok(5));
    assert_eq!(m.get_platform_fees(), 0);
}

#[test]
fn event_log_records_commit_order() {
    let platform = id(100);
    let provider = id(1);
    let caller = id(2);
    let mut m = AgentMarket::new();
    m.initialize(platform);
    assert_eq!(m.events.len(), 0); // initialization appends nothing
    m.register_service(provider, "svc".to_string(), "http://x".to_string(), 0, 100)
        .unwrap();
    m.call_service(caller, 1, 100).unwrap();
    m.rate_service(caller, 1, 4).unwrap();
    m.withdraw_revenue(provider, 1).unwrap(); // appends nothing
    m.withdraw_platform_fees(platform).unwrap();
    assert_eq!(m.events.len(), 4);
    assert_eq!(
        m.events[0],
        MarketEvent::ServiceRegistered {
            service_id: 1,
            owner: provider,
            name: "svc".to_string(),
            price_per_call: 100,
        }
    );
    assert_eq!(
        m.events[1],
        MarketEvent::ServiceCalled { service_id: 1, caller, price: 100 }
    );
    assert_eq!(
        m.events[2],
        MarketEvent::ServiceRated { service_id: 1, rater: caller, rating: 4 }
    );
    assert_eq!(
        m.events[3],
        MarketEvent::PlatformFeesWithdrawn { owner: platform, amount: 5 }
    );
}
