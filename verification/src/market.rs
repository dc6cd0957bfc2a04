use vstd::prelude::*;

use crate::errors::MarketError;
use crate::events::MarketEvent;
use crate::fees::{platform_fee_of, provider_revenue_of, split_price, PLATFORM_FEE_PERCENT};
use crate::identity::Identity;
use crate::ratings::{
    distinct_rating_keys, rating_lookup, rating_or_zero, store_rating, find_rating, RatingEntry,
};

verus! {

/// The first category a service may declare.
pub const CATEGORY_IMAGE_GENERATION: u64 = 0;

/// The last category a service may declare; larger values are rejected.
pub const CATEGORY_CODE_GENERATION: u64 = 1;

/// One listed service. Ids are assigned densely starting at 1, so the
/// ledger stores the service with id `n` at index `n - 1`.
pub struct AgentService {
    /// Set once at registration, immutable thereafter; never the sentinel.
    pub owner: Identity,
    /// Non-empty at registration.
    pub name: String,
    /// Non-empty at registration; handed back verbatim by a paid call.
    pub endpoint: String,
    /// Within [CATEGORY_IMAGE_GENERATION, CATEGORY_CODE_GENERATION].
    pub category: u64,
    /// Strictly positive; immutable after registration.
    pub price_per_call: u64,
    /// Successful paid calls so far; never decreases.
    pub total_calls: u64,
    /// Lifetime provider-side revenue (post-fee); never decreases, not even
    /// when the provider withdraws.
    pub total_revenue: u64,
    /// Initialized to 100; never recomputed from ratings.
    pub reputation_score: u64,
    /// Initialized to true; no operation flips it.
    pub is_active: bool,
}

/// The sum of the provider shares of the logged calls made to one service.
/// A log record is (service id, provider share, platform fee).
pub open spec fn logged_revenue(log: Seq<(u64, int, int)>, service_id: u64) -> int
    decreases log.len(),
{
    if log.len() == 0 {
        0
    } else {
        logged_revenue(log.drop_last(), service_id) + if log.last().0 == service_id {
            log.last().1
        } else {
            0
        }
    }
}

/// The sum of the platform fees of all logged calls.
pub open spec fn logged_fees(log: Seq<(u64, int, int)>) -> int
    decreases log.len(),
{
    if log.len() == 0 {
        0
    } else {
        logged_fees(log.drop_last()) + log.last().2
    }
}

/// Appending one logged call adds its provider share to the sum for its
/// service, leaves every other service's sum unchanged, and adds its
/// platform fee to the fee sum.
proof fn lemma_logged_push(log: Seq<(u64, int, int)>, rec: (u64, int, int), service_id: u64)
    ensures
        logged_revenue(log.push(rec), service_id) == logged_revenue(log, service_id) + if rec.0
            == service_id {
            rec.1
        } else {
            0
        },
        logged_fees(log.push(rec)) == logged_fees(log) + rec.2,
{
    assert(log.push(rec).drop_last() =~= log);
    assert(log.push(rec).last() == rec);
}

/// A service id no logged call names has a zero revenue sum.
proof fn lemma_logged_revenue_absent(log: Seq<(u64, int, int)>, service_id: u64)
    requires
        forall|r: (u64, int, int)| log.contains(r) ==> (#[trigger] r.0) != service_id,
    ensures
        logged_revenue(log, service_id) == 0,
    decreases log.len(),
{
    if log.len() > 0 {
        assert(log[log.len() - 1] == log.last());
        assert(log.contains(log.last()));
        assert forall|r: (u64, int, int)| log.drop_last().contains(r) implies (#[trigger] r.0)
            != service_id by {
            let idx = choose|idx: int|
                0 <= idx < log.drop_last().len() && log.drop_last()[idx] == r;
            assert(log[idx] == r);
            assert(log.contains(r));
        }
        lemma_logged_revenue_absent(log.drop_last(), service_id);
    }
}

/// A service after one successful paid call: one more metered call, the
/// provider share added to the lifetime revenue, every other field as it was.
pub open spec fn svc_after_call(s0: AgentService, provider_revenue: int) -> AgentService {
    AgentService {
        owner: s0.owner,
        name: s0.name,
        endpoint: s0.endpoint,
        category: s0.category,
        price_per_call: s0.price_per_call,
        total_calls: (s0.total_calls + 1) as u64,
        total_revenue: (s0.total_revenue + provider_revenue) as u64,
        reputation_score: s0.reputation_score,
        is_active: s0.is_active,
    }
}

/// The whole marketplace ledger: listings, claimable balances, ratings, the
/// platform account, the event log, and a ghost log of every successful
/// paid call used to state revenue conservation.
pub struct AgentMarket {
    /// The service with id `n` sits at index `n - 1`.
    pub services: Vec<AgentService>,
    /// The provider's claimable balance per service, at the same index.
    pub pending_withdrawals: Vec<u64>,
    /// At most one entry per (service id, rater) key.
    pub ratings: Vec<RatingEntry>,
    /// The platform account's owner; the sentinel until `initialize` runs.
    pub platform_owner: Identity,
    /// Zero until initialization, then fixed at PLATFORM_FEE_PERCENT.
    pub platform_fee_percent: u64,
    /// Fees accrued since the last platform payout.
    pub platform_fees_collected: u64,
    /// Append-only; its order is the commit order.
    pub events: Vec<MarketEvent>,
    /// Every successful paid call: (service id, provider share, platform
    /// fee); used to state that revenue and fees are conserved.
    pub call_log: Ghost<Seq<(u64, int, int)>>,
    /// Everything ever acknowledged as paid out to the platform owner.
    pub fees_paid_out: Ghost<int>,
}

impl AgentMarket {
    /// Whether a service is registered under this id.
    pub open spec fn valid_id(self, service_id: u64) -> bool {
        1 <= service_id && service_id <= self.services@.len()
    }

    /// The service registered under this id.
    pub open spec fn svc(self, service_id: u64) -> AgentService
        recommends
            self.valid_id(service_id),
    {
        self.services@[service_id - 1]
    }

    /// The provider's claimable balance for this id; zero where no service
    /// is registered, matching the store's default.
    pub open spec fn pending_of(self, service_id: u64) -> u64 {
        if self.valid_id(service_id) {
            self.pending_withdrawals@[service_id - 1]
        } else {
            0
        }
    }

    /// The owner recorded under this id; the sentinel marks "not found".
    pub open spec fn owner_of(self, service_id: u64) -> Identity {
        if self.valid_id(service_id) {
            self.svc(service_id).owner
        } else {
            Identity::spec_null()
        }
    }

    /// The ledger's invariant; every operation preserves it.
    pub open spec fn wf(self) -> bool {
        &&& self.pending_withdrawals@.len() == self.services@.len()
        &&& forall|i: int|
            0 <= i < self.services@.len() ==> (#[trigger] self.services@[i]).owner.id != 0
        &&& forall|i: int|
            0 <= i < self.services@.len() ==> (#[trigger] self.services@[i]).price_per_call > 0
        &&& forall|i: int|
            0 <= i < self.services@.len() ==> (#[trigger] self.services@[i]).category
                <= CATEGORY_CODE_GENERATION
        &&& forall|i: int|
            0 <= i < self.services@.len() ==> self.pending_withdrawals@[i] <= (
            #[trigger] self.services@[i]).total_revenue
        &&& forall|i: int|
            0 <= i < self.services@.len() ==> (#[trigger] self.services@[i]).total_revenue
                == logged_revenue(self.call_log@, (i + 1) as u64)
        &&& forall|r: (u64, int, int)|
            self.call_log@.contains(r) ==> 1 <= (#[trigger] r.0) <= self.services@.len() && 0
                <= r.1 && 0 <= r.2
        &&& self.fees_paid_out@ >= 0
        &&& self.platform_fees_collected == logged_fees(self.call_log@) - self.fees_paid_out@
        &&& distinct_rating_keys(self.ratings@)
        &&& forall|j: int|
            0 <= j < self.ratings@.len() ==> 1 <= (#[trigger] self.ratings@[j]).rating <= 5
        &&& self.platform_fee_percent <= 100
        &&& (self.platform_owner.id == 0 ==> self.platform_fee_percent == 0
            && self.platform_fees_collected == 0)
        &&& (self.platform_owner.id != 0 ==> self.platform_fee_percent == PLATFORM_FEE_PERCENT)
    }

    /// An empty ledger: no services, no ratings, no events, the platform
    /// account not yet initialized.
    pub fn new() -> (r: AgentMarket)
        ensures
            r.wf(),
            r.services@.len() == 0,
            r.pending_withdrawals@.len() == 0,
            r.ratings@.len() == 0,
            r.platform_owner == Identity::spec_null(),
            r.platform_fee_percent == 0,
            r.platform_fees_collected == 0,
            r.events@.len() == 0,
            r.call_log@.len() == 0,
            r.fees_paid_out@ == 0,
    {
        AgentMarket {
            services: Vec::new(),
            pending_withdrawals: Vec::new(),
            ratings: Vec::new(),
            platform_owner: Identity::null(),
            platform_fee_percent: 0,
            platform_fees_collected: 0,
            events: Vec::new(),
            call_log: Ghost(Seq::empty()),
            fees_paid_out: Ghost(0),
        }
    }

    /// Idempotent setup. The first invocation records the caller as the
    /// platform owner and fixes the fee percentage; once an owner is
    /// recorded, further invocations change nothing and are not an error.
    /// No event is appended.
    pub fn initialize(&mut self, caller: Identity)
        requires
            old(self).wf(),
            !caller.spec_is_null(),
        ensures
            final(self).wf(),
            old(self).platform_owner.id != 0 ==> *final(self) == *old(self),
            old(self).platform_owner.id == 0 ==> ({
                &&& final(self).platform_owner == caller
                &&& final(self).platform_fee_percent == PLATFORM_FEE_PERCENT
                &&& final(self).platform_fees_collected == 0
                &&& final(self).services@ == old(self).services@
                &&& final(self).pending_withdrawals@ == old(self).pending_withdrawals@
                &&& final(self).ratings@ == old(self).ratings@
                &&& final(self).events@ == old(self).events@
                &&& final(self).call_log@ == old(self).call_log@
                &&& final(self).fees_paid_out@ == old(self).fees_paid_out@
            }),
    {
        if !self.platform_owner.is_null() {
            return ;
        }
        self.platform_owner = caller;
        self.platform_fee_percent = PLATFORM_FEE_PERCENT;
        self.platform_fees_collected = 0;
    }

    /// Why a registration is rejected, or `None` where it is accepted.
    /// Checks run in this order and nothing is mutated before they pass.
    pub open spec fn register_service_err(
        self,
        name: Seq<char>,
        endpoint: Seq<char>,
        category: u64,
        price_per_call: u64,
    ) -> Option<MarketError> {
        if name.len() == 0 || endpoint.len() == 0 {
            Some(MarketError::InvalidInput)
        } else if price_per_call == 0 {
            Some(MarketError::InvalidPrice)
        } else if category > CATEGORY_CODE_GENERATION {
            Some(MarketError::InvalidCategory)
        } else if self.services@.len() >= u64::MAX {
            Some(MarketError::ArithmeticOverflow)
        } else {
            None
        }
    }

    /// Lists a new service for the caller and returns its id: one past the
    /// count of services registered before it, so successive successful
    /// registrations return 1, 2, 3, ... in call order.
    pub fn register_service(
        &mut self,
        caller: Identity,
        name: String,
        endpoint: String,
        category: u64,
        price_per_call: u64,
    ) -> (r: Result<u64, MarketError>)
        requires
            old(self).wf(),
            !caller.spec_is_null(),
        ensures
            final(self).wf(),
            r is Err <==> old(self).register_service_err(name@, endpoint@, category, price_per_call)
                is Some,
            r is Err ==> Some(r->Err_0) == old(self).register_service_err(
                name@,
                endpoint@,
                category,
                price_per_call,
            ) && *final(self) == *old(self),
            r is Ok ==> ({
                let id = r->Ok_0;
                &&& id == old(self).services@.len() + 1
                &&& final(self).services@ == old(self).services@.push(
                    (AgentService {
                        owner: caller,
                        name: name,
                        endpoint: endpoint,
                        category: category,
                        price_per_call: price_per_call,
                        total_calls: 0,
                        total_revenue: 0,
                        reputation_score: 100,
                        is_active: true,
                    }),
                )
                &&& final(self).pending_withdrawals@ == old(self).pending_withdrawals@.push(0u64)
                &&& final(self).ratings@ == old(self).ratings@
                &&& final(self).platform_owner == old(self).platform_owner
                &&& final(self).platform_fee_percent == old(self).platform_fee_percent
                &&& final(self).platform_fees_collected == old(self).platform_fees_collected
                &&& final(self).events@ == old(self).events@.push(
                    (MarketEvent::ServiceRegistered {
                        service_id: id,
                        owner: caller,
                        name: name,
                        price_per_call: price_per_call,
                    }),
                )
                &&& final(self).call_log@ == old(self).call_log@
                &&& final(self).fees_paid_out@ == old(self).fees_paid_out@
            }),
    {
        if name.as_str().is_empty() || endpoint.as_str().is_empty() {
            return Err(MarketError::InvalidInput);
        }
        if price_per_call == 0 {
            return Err(MarketError::InvalidPrice);
        }
        if category > CATEGORY_CODE_GENERATION {
            return Err(MarketError::InvalidCategory);
        }
        let n: u64 = self.services.len() as u64;
        if n == u64::MAX {
            return Err(MarketError::ArithmeticOverflow);
        }
        let service_id = n + 1;
        let name_for_event = name.clone();
        self.services.push(
            AgentService {
                owner: caller,
                name,
                endpoint,
                category,
                price_per_call,
                total_calls: 0,
                total_revenue: 0,
                reputation_score: 100,
                is_active: true,
            },
        );
        self.pending_withdrawals.push(0);
        self.events.push(
            MarketEvent::ServiceRegistered {
                service_id,
                owner: caller,
                name: name_for_event,
                price_per_call,
            },
        );
        proof {
            let post = *self;
            let pre = *old(self);
            assert forall|i: int| 0 <= i < post.services@.len() implies (
            #[trigger] post.services@[i]).total_revenue == logged_revenue(
                post.call_log@,
                (i + 1) as u64,
            ) by {
                if i < pre.services@.len() {
                    assert(post.services@[i] == pre.services@[i]);
                } else {
                    assert forall|rr: (u64, int, int)| post.call_log@.contains(rr) implies (
                    #[trigger] rr.0) != (i + 1) as u64 by {
                        assert(1 <= rr.0 <= pre.services@.len());
                    }
                    lemma_logged_revenue_absent(post.call_log@, (i + 1) as u64);
                }
            }
        }
        Ok(service_id)
    }

    /// Whether metering one call to this service would run a counter or the
    /// fee product past the 64-bit accounting width.
    pub open spec fn call_overflow(self, service_id: u64) -> bool
        recommends
            self.valid_id(service_id),
    {
        let price = self.svc(service_id).price_per_call as int;
        let fee = platform_fee_of(price, self.platform_fee_percent as int);
        let pr = provider_revenue_of(price, self.platform_fee_percent as int);
        ||| self.svc(service_id).total_calls + 1 > u64::MAX
        ||| self.svc(service_id).total_revenue + pr > u64::MAX
        ||| self.pending_of(service_id) + pr > u64::MAX
        ||| self.platform_fees_collected + fee > u64::MAX
    }

    /// Why a paid call is rejected, or `None` where it is accepted.
    /// Checks run in this order and nothing is mutated before they pass.
    pub open spec fn call_service_err(self, service_id: u64, payment: u64) -> Option<MarketError> {
        if !self.valid_id(service_id) {
            Some(MarketError::ServiceNotFound)
        } else if !self.svc(service_id).is_active {
            Some(MarketError::ServiceInactive)
        } else if payment < self.svc(service_id).price_per_call {
            Some(MarketError::InsufficientPayment)
        } else if self.svc(service_id).price_per_call * self.platform_fee_percent > u64::MAX {
            Some(MarketError::ArithmeticOverflow)
        } else if self.call_overflow(service_id) {
            Some(MarketError::ArithmeticOverflow)
        } else {
            None
        }
    }

    /// Meters one paid call. The attached payment must cover the price; the
    /// split is computed from the price alone, so any excess payment is left
    /// with the environment and gets no accounting entry. On success the
    /// platform fee accrues to the platform, the provider share accrues to
    /// both the lifetime revenue and the claimable balance, and the service's
    /// endpoint is returned for the caller to contact.
    pub fn call_service(&mut self, caller: Identity, service_id: u64, payment: u64) -> (r: Result<
        String,
        MarketError,
    >)
        requires
            old(self).wf(),
        ensures
            final(self).wf(),
            r is Err <==> old(self).call_service_err(service_id, payment) is Some,
            r is Err ==> Some(r->Err_0) == old(self).call_service_err(service_id, payment)
                && *final(self) == *old(self),
            r is Ok ==> ({
                let s0 = old(self).svc(service_id);
                let fee = platform_fee_of(
                    s0.price_per_call as int,
                    old(self).platform_fee_percent as int,
                );
                let pr = provider_revenue_of(
                    s0.price_per_call as int,
                    old(self).platform_fee_percent as int,
                );
                &&& old(self).valid_id(service_id)
                &&& r->Ok_0 == s0.endpoint
                &&& final(self).services@ == old(self).services@.update(
                    service_id - 1,
                    svc_after_call(s0, pr),
                )
                &&& final(self).pending_withdrawals@ == old(self).pending_withdrawals@.update(
                    service_id - 1,
                    (old(self).pending_of(service_id) + pr) as u64,
                )
                &&& final(self).platform_fees_collected == old(self).platform_fees_collected + fee
                &&& final(self).ratings@ == old(self).ratings@
                &&& final(self).platform_owner == old(self).platform_owner
                &&& final(self).platform_fee_percent == old(self).platform_fee_percent
                &&& final(self).events@ == old(self).events@.push(
                    (MarketEvent::ServiceCalled { service_id, caller, price: s0.price_per_call }),
                )
                &&& final(self).call_log@ == old(self).call_log@.push((service_id, pr, fee))
                &&& final(self).fees_paid_out@ == old(self).fees_paid_out@
            }),
    {
        let n: u64 = self.services.len() as u64;
        if service_id == 0 || service_id > n {
            return Err(MarketError::ServiceNotFound);
        }
        let i: usize = (service_id - 1) as usize;
        if !self.services[i].is_active {
            return Err(MarketError::ServiceInactive);
        }
        let price = self.services[i].price_per_call;
        if payment < price {
            return Err(MarketError::InsufficientPayment);
        }
        let (fee, pr) = match split_price(price, self.platform_fee_percent) {
            None => {
                return Err(MarketError::ArithmeticOverflow);
            },
            Some(parts) => parts,
        };
        let calls1 = match self.services[i].total_calls.checked_add(1) {
            None => {
                return Err(MarketError::ArithmeticOverflow);
            },
            Some(v) => v,
        };
        let rev1 = match self.services[i].total_revenue.checked_add(pr) {
            None => {
                return Err(MarketError::ArithmeticOverflow);
            },
            Some(v) => v,
        };
        let pend1 = match self.pending_withdrawals[i].checked_add(pr) {
            None => {
                return Err(MarketError::ArithmeticOverflow);
            },
            Some(v) => v,
        };
        let fees1 = match self.platform_fees_collected.checked_add(fee) {
            None => {
                return Err(MarketError::ArithmeticOverflow);
            },
            Some(v) => v,
        };
        let endpoint = self.services[i].endpoint.clone();
        let slot = &mut self.services[i];
        slot.total_calls = calls1;
        slot.total_revenue = rev1;
        let pending_slot = &mut self.pending_withdrawals[i];
        *pending_slot = pend1;
        self.platform_fees_collected = fees1;
        self.events.push(MarketEvent::ServiceCalled { service_id, caller, price });
        proof {
            self.call_log@ = self.call_log@.push((service_id, pr as int, fee as int));
        }
        proof {
            let pre = *old(self);
            let post = *self;
            let s0 = pre.svc(service_id);
            let pr_spec = provider_revenue_of(
                s0.price_per_call as int,
                pre.platform_fee_percent as int,
            );
            assert(pr == pr_spec);
            assert(post.services@ =~= pre.services@.update(service_id - 1, svc_after_call(s0, pr_spec)));
            // the revenue sums stay in step with the extended call log
            assert forall|j: int| 0 <= j < post.services@.len() implies (
            #[trigger] post.services@[j]).total_revenue == logged_revenue(
                post.call_log@,
                (j + 1) as u64,
            ) by {
                lemma_logged_push(
                    pre.call_log@,
                    (service_id, pr as int, fee as int),
                    (j + 1) as u64,
                );
            }
            lemma_logged_push(pre.call_log@, (service_id, pr as int, fee as int), service_id);
            // every log record still names a registered service
            assert forall|rr: (u64, int, int)| post.call_log@.contains(rr) implies 1 <= (
            #[trigger] rr.0) <= post.services@.len() && 0 <= rr.1 && 0 <= rr.2 by {
                let idx = choose|idx: int|
                    0 <= idx < post.call_log@.len() && post.call_log@[idx] == rr;
                if idx < pre.call_log@.len() {
                    assert(pre.call_log@[idx] == rr);
                    assert(pre.call_log@.contains(rr));
                } else {
                    assert(rr == (service_id, pr as int, fee as int));
                }
            }
            let i_int = service_id - 1;
            // claimable balances stay within lifetime revenue
            assert forall|j: int| 0 <= j < post.services@.len() implies post.pending_withdrawals@[j]
                <= (#[trigger] post.services@[j]).total_revenue by {
                if j != i_int {
                    assert(post.services@[j] == pre.services@[j]);
                    assert(post.pending_withdrawals@[j] == pre.pending_withdrawals@[j]);
                }
            }
            // the immutable per-service facts carry over
            assert forall|j: int| 0 <= j < post.services@.len() implies (
            #[trigger] post.services@[j]).owner.id != 0 && post.services@[j].price_per_call > 0
                && post.services@[j].category <= CATEGORY_CODE_GENERATION by {
                if j != i_int {
                    assert(post.services@[j] == pre.services@[j]);
                }
            }
            // before initialization the fee percentage is zero, so no fee accrues
            if pre.platform_owner.id == 0 {
                assert(pre.platform_fee_percent == 0);
                assert(s0.price_per_call as int * 0 == 0);
                assert(platform_fee_of(s0.price_per_call as int, 0) == 0);
            }
        }
        Ok(endpoint)
    }

    /// Why a rating is rejected, or `None` where it is accepted. The rating
    /// range is the only check: rating a nonexistent service succeeds and
    /// stores an orphan entry, as documented.
    pub open spec fn rate_service_err(self, rating: u64) -> Option<MarketError> {
        if rating == 0 || rating > 5 {
            Some(MarketError::InvalidRating)
        } else {
            None
        }
    }

    /// Records the caller's rating for a service id, overwriting the
    /// caller's prior rating for that id. No check is made that the service
    /// exists; an entry under an unregistered id is kept as it is.
    pub fn rate_service(&mut self, caller: Identity, service_id: u64, rating: u64) -> (r: Result<
        (),
        MarketError,
    >)
        requires
            old(self).wf(),
        ensures
            final(self).wf(),
            r is Err <==> old(self).rate_service_err(rating) is Some,
            r is Err ==> Some(r->Err_0) == old(self).rate_service_err(rating) && *final(self)
                == *old(self),
            r is Ok ==> ({
                &&& 1 <= rating <= 5
                &&& rating_lookup(final(self).ratings@, service_id, caller) == Some(rating)
                &&& rating_lookup(old(self).ratings@, service_id, caller) is Some
                    ==> final(self).ratings@.len() == old(self).ratings@.len()
                &&& rating_lookup(old(self).ratings@, service_id, caller) is None
                    ==> final(self).ratings@.len() == old(self).ratings@.len() + 1
                &&& forall|sid2: u64, rater2: Identity|
                    #![trigger rating_lookup(final(self).ratings@, sid2, rater2)]
                    !(sid2 == service_id && rater2 == caller)
                        ==> rating_lookup(final(self).ratings@, sid2, rater2) == rating_lookup(
                        old(self).ratings@,
                        sid2,
                        rater2,
                    )
                &&& final(self).services@ == old(self).services@
                &&& final(self).pending_withdrawals@ == old(self).pending_withdrawals@
                &&& final(self).platform_owner == old(self).platform_owner
                &&& final(self).platform_fee_percent == old(self).platform_fee_percent
                &&& final(self).platform_fees_collected == old(self).platform_fees_collected
                &&& final(self).events@ == old(self).events@.push(
                    (MarketEvent::ServiceRated { service_id, rater: caller, rating }),
                )
                &&& final(self).call_log@ == old(self).call_log@
                &&& final(self).fees_paid_out@ == old(self).fees_paid_out@
            }),
    {
        if rating == 0 || rating > 5 {
            return Err(MarketError::InvalidRating);
        }
        store_rating(&mut self.ratings, service_id, caller, rating);
        self.events.push(MarketEvent::ServiceRated { service_id, rater: caller, rating });
        proof {
            let pre_ratings = old(self).ratings@;
            let post_ratings = self.ratings@;
            let e_new = RatingEntry { service_id, rater: caller, rating };
            assert forall|j: int| 0 <= j < post_ratings.len() implies 1 <= (
            #[trigger] post_ratings[j]).rating <= 5 by {
                if post_ratings[j] != e_new {
                    assert(post_ratings[j] == pre_ratings[j]);
                }
            }
        }
        Ok(())
    }

    /// Why a provider withdrawal is rejected, or `None` where it is
    /// accepted. An unregistered id has the sentinel owner, so a real caller
    /// is turned away as NotOwner there.
    pub open spec fn withdraw_revenue_err(self, service_id: u64, caller: Identity) -> Option<
        MarketError,
    > {
        if self.owner_of(service_id) != caller {
            Some(MarketError::NotOwner)
        } else if self.pending_of(service_id) == 0 {
            Some(MarketError::NoPendingRevenue)
        } else {
            None
        }
    }

    /// Clears the caller's claimable balance for one of their services. The
    /// zeroing is the ledger's acknowledgment of a payout; moving the value
    /// itself is the environment's affair. Lifetime revenue is untouched and
    /// no event is appended.
    pub fn withdraw_revenue(&mut self, caller: Identity, service_id: u64) -> (r: Result<
        u64,
        MarketError,
    >)
        requires
            old(self).wf(),
        ensures
            final(self).wf(),
            r is Err <==> old(self).withdraw_revenue_err(service_id, caller) is Some,
            r is Err ==> Some(r->Err_0) == old(self).withdraw_revenue_err(service_id, caller)
                && *final(self) == *old(self),
            r is Ok ==> ({
                &&& old(self).valid_id(service_id)
                &&& caller == old(self).owner_of(service_id)
                &&& r->Ok_0 == old(self).pending_of(service_id)
                &&& r->Ok_0 > 0
                &&& final(self).pending_withdrawals@ == old(self).pending_withdrawals@.update(
                    service_id - 1,
                    0u64,
                )
                &&& final(self).services@ == old(self).services@
                &&& final(self).ratings@ == old(self).ratings@
                &&& final(self).platform_owner == old(self).platform_owner
                &&& final(self).platform_fee_percent == old(self).platform_fee_percent
                &&& final(self).platform_fees_collected == old(self).platform_fees_collected
                &&& final(self).events@ == old(self).events@
                &&& final(self).call_log@ == old(self).call_log@
                &&& final(self).fees_paid_out@ == old(self).fees_paid_out@
            }),
    {
        let n: u64 = self.services.len() as u64;
        let in_range = 1 <= service_id && service_id <= n;
        let owner = if in_range {
            self.services[(service_id - 1) as usize].owner
        } else {
            Identity::null()
        };
        if !(owner == caller) {
            return Err(MarketError::NotOwner);
        }
        let pending = if in_range {
            self.pending_withdrawals[(service_id - 1) as usize]
        } else {
            0
        };
        if pending == 0 {
            return Err(MarketError::NoPendingRevenue);
        }
        let slot = &mut self.pending_withdrawals[(service_id - 1) as usize];
        *slot = 0;
        Ok(pending)
    }

    /// Why a platform payout is rejected, or `None` where it is accepted.
    pub open spec fn withdraw_platform_fees_err(self, caller: Identity) -> Option<MarketError> {
        if self.platform_owner != caller {
            Some(MarketError::NotPlatformOwner)
        } else if self.platform_fees_collected == 0 {
            Some(MarketError::NoFeesCollected)
        } else {
            None
        }
    }

    /// Pays the accrued fees out to the platform owner: returns the accrued
    /// amount and resets the accrual to zero. As with provider withdrawals,
    /// moving the value itself is the environment's affair.
    pub fn withdraw_platform_fees(&mut self, caller: Identity) -> (r: Result<u64, MarketError>)
        requires
            old(self).wf(),
        ensures
            final(self).wf(),
            r is Err <==> old(self).withdraw_platform_fees_err(caller) is Some,
            r is Err ==> Some(r->Err_0) == old(self).withdraw_platform_fees_err(caller)
                && *final(self) == *old(self),
            r is Ok ==> ({
                &&& caller == old(self).platform_owner
                &&& r->Ok_0 == old(self).platform_fees_collected
                &&& r->Ok_0 > 0
                &&& final(self).platform_fees_collected == 0
                &&& final(self).services@ == old(self).services@
                &&& final(self).pending_withdrawals@ == old(self).pending_withdrawals@
                &&& final(self).ratings@ == old(self).ratings@
                &&& final(self).platform_owner == old(self).platform_owner
                &&& final(self).platform_fee_percent == old(self).platform_fee_percent
                &&& final(self).events@ == old(self).events@.push(
                    (MarketEvent::PlatformFeesWithdrawn {
                        owner: caller,
                        amount: old(self).platform_fees_collected,
                    }),
                )
                &&& final(self).call_log@ == old(self).call_log@
                &&& final(self).fees_paid_out@ == old(self).fees_paid_out@
                    + old(self).platform_fees_collected
            }),
    {
        if !(self.platform_owner == caller) {
            return Err(MarketError::NotPlatformOwner);
        }
        let amount = self.platform_fees_collected;
        if amount == 0 {
            return Err(MarketError::NoFeesCollected);
        }
        self.platform_fees_collected = 0;
        self.events.push(MarketEvent::PlatformFeesWithdrawn { owner: caller, amount });
        proof {
            self.fees_paid_out@ = self.fees_paid_out@ + amount as int;
        }
        Ok(amount)
    }

    /// Reads a service's public record: owner, name, endpoint, price,
    /// metered calls, reputation score, active flag. An unregistered id
    /// yields the zeroed record the persistent store would hand back, not
    /// an error; only mutating paths report "not found".
    pub fn get_service(&self, service_id: u64) -> (r: (
        Identity,
        String,
        String,
        u64,
        u64,
        u64,
        bool,
    ))
        ensures
            self.valid_id(service_id) ==> ({
                let s = self.svc(service_id);
                r == (
                    s.owner,
                    s.name,
                    s.endpoint,
                    s.price_per_call,
                    s.total_calls,
                    s.reputation_score,
                    s.is_active,
                )
            }),
            !self.valid_id(service_id) ==> ({
                &&& r.0 == Identity::spec_null()
                &&& r.1@ == Seq::<char>::empty()
                &&& r.2@ == Seq::<char>::empty()
                &&& r.3 == 0u64
                &&& r.4 == 0u64
                &&& r.5 == 0u64
                &&& r.6 == false
            }),
    {
        let n: u64 = self.services.len() as u64;
        if 1 <= service_id && service_id <= n {
            let s = &self.services[(service_id - 1) as usize];
            (
                s.owner,
                s.name.clone(),
                s.endpoint.clone(),
                s.price_per_call,
                s.total_calls,
                s.reputation_score,
                s.is_active,
            )
        } else {
            (Identity::null(), String::new(), String::new(), 0, 0, 0, false)
        }
    }

    /// Reads a service's accounting counters: metered calls, lifetime
    /// revenue, claimable balance. An unregistered id yields zeroes.
    pub fn get_service_stats(&self, service_id: u64) -> (r: (u64, u64, u64))
        requires
            self.wf(),
        ensures
            self.valid_id(service_id) ==> r == (
                self.svc(service_id).total_calls,
                self.svc(service_id).total_revenue,
                self.pending_of(service_id),
            ),
            !self.valid_id(service_id) ==> r == (0u64, 0u64, 0u64),
    {
        let n: u64 = self.services.len() as u64;
        if 1 <= service_id && service_id <= n {
            let i: usize = (service_id - 1) as usize;
            (self.services[i].total_calls, self.services[i].total_revenue, self.pending_withdrawals[i])
        } else {
            (0, 0, 0)
        }
    }

    /// The fees accrued to the platform since the last payout.
    pub fn get_platform_fees(&self) -> (r: u64)
        ensures
            r == self.platform_fees_collected,
    {
        self.platform_fees_collected
    }

    /// How many services have been registered; also the highest assigned id.
    pub fn total_services_count(&self) -> (r: u64)
        ensures
            r == self.services@.len(),
    {
        self.services.len() as u64
    }

    /// The rating a rater has stored for a service id, or zero where that
    /// rater has never rated it.
    pub fn get_rating(&self, service_id: u64, rater: Identity) -> (r: u64)
        ensures
            r == rating_or_zero(self.ratings@, service_id, rater),
    {
        find_rating(&self.ratings, service_id, rater)
    }
}

/// The registered count grows by exactly one per successful registration,
/// so after k of them it is k.
proof fn lemma_registration_count(states: Seq<AgentMarket>, ids: Seq<u64>, k: int)
    requires
        states.len() == ids.len() + 1,
        states[0].services@.len() == 0,
        forall|j: int|
            0 <= j < ids.len() ==> (#[trigger] states[j]).services@.len() + 1 == ids[j]
                && states[j + 1].services@.len() == states[j].services@.len() + 1,
        0 <= k < states.len(),
    ensures
        states[k].services@.len() == k,
    decreases k,
{
    if k > 0 {
        lemma_registration_count(states, ids, k - 1);
        assert(states[k - 1].services@.len() == k - 1);
    }
}

/// Sequential ids: starting from an empty ledger, the ids a run of
/// successful registrations hands out are exactly 1, 2, 3, ... in call
/// order. The premises are what `register_service`'s contract yields for
/// each successful call of such a run.
pub proof fn lemma_sequential_ids(states: Seq<AgentMarket>, ids: Seq<u64>)
    requires
        states.len() == ids.len() + 1,
        states[0].services@.len() == 0,
        forall|j: int|
            0 <= j < ids.len() ==> (#[trigger] states[j]).services@.len() + 1 == ids[j]
                && states[j + 1].services@.len() == states[j].services@.len() + 1,
    ensures
        forall|k: int| 0 <= k < ids.len() ==> (#[trigger] ids[k]) == k + 1,
{
    assert forall|k: int| 0 <= k < ids.len() implies (#[trigger] ids[k]) == k + 1 by {
        lemma_registration_count(states, ids, k);
        assert(states[k].services@.len() == k);
    }
}

/// Revenue conservation: in every well-formed ledger state, a service's
/// lifetime revenue equals the sum of the provider shares of all successful
/// calls metered for it, and its claimable balance never exceeds that
/// lifetime revenue.
pub proof fn lemma_revenue_conservation(m: AgentMarket, service_id: u64)
    requires
        m.wf(),
        m.valid_id(service_id),
    ensures
        m.svc(service_id).total_revenue == logged_revenue(m.call_log@, service_id),
        m.pending_of(service_id) <= m.svc(service_id).total_revenue,
{
    let i = service_id - 1;
    assert(m.services@[i].total_revenue == logged_revenue(m.call_log@, (i + 1) as u64));
    assert((i + 1) as u64 == service_id);
}

/// Fee conservation: in every well-formed ledger state, the platform's
/// accrued balance equals the sum of the platform fees of all successful
/// calls minus everything already acknowledged as paid out.
pub proof fn lemma_fee_conservation(m: AgentMarket)
    requires
        m.wf(),
    ensures
        m.platform_fees_collected == logged_fees(m.call_log@) - m.fees_paid_out@,
        m.fees_paid_out@ <= logged_fees(m.call_log@),
{
}

/// Dense sequential ids: exactly the ids from 1 to the registered count
/// name a service, every registered service has a real owner, and an
/// unregistered id answers with the sentinel owner.
pub proof fn lemma_dense_ids(m: AgentMarket, service_id: u64)
    requires
        m.wf(),
    ensures
        m.valid_id(service_id) <==> 1 <= service_id <= m.services@.len(),
        m.valid_id(service_id) ==> !m.owner_of(service_id).spec_is_null(),
        !m.valid_id(service_id) ==> m.owner_of(service_id).spec_is_null(),
{
}

/// Withdrawing twice in a row: a successful provider withdrawal leaves the
/// claimable balance at zero, so an immediate second attempt by the same
/// owner is rejected as NoPendingRevenue.
pub proof fn lemma_withdraw_twice_rejected(m: AgentMarket, service_id: u64, caller: Identity)
    requires
        m.wf(),
        m.owner_of(service_id) == caller,
        m.pending_of(service_id) == 0,
    ensures
        m.withdraw_revenue_err(service_id, caller) == Some(MarketError::NoPendingRevenue),
{
}

/// Authorization: a provider withdrawal attempted by anyone but the
/// recorded owner is rejected as NotOwner, and the rejection leaves the
/// ledger unchanged by the operation's frame clause.
pub proof fn lemma_withdraw_requires_owner(m: AgentMarket, service_id: u64, caller: Identity)
    requires
        m.wf(),
        m.owner_of(service_id) != caller,
    ensures
        m.withdraw_revenue_err(service_id, caller) == Some(MarketError::NotOwner),
{
}

} // verus!
