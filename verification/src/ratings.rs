use vstd::prelude::*;

use crate::identity::Identity;

verus! {

/// One stored rating: the latest value a given rater has recorded for a
/// given service id. The ledger keeps at most one entry per key, where the
/// key is the (service id, rater) pair.
#[derive(Clone, Copy, PartialEq, Eq, Structural, Debug)]
pub struct RatingEntry {
    pub service_id: u64,
    pub rater: Identity,
    pub rating: u64,
}

/// Whether an entry is keyed by the given (service id, rater) pair.
pub open spec fn entry_matches(e: RatingEntry, service_id: u64, rater: Identity) -> bool {
    e.service_id == service_id && e.rater == rater
}

/// No two entries share a (service id, rater) key.
pub open spec fn distinct_rating_keys(entries: Seq<RatingEntry>) -> bool {
    forall|j: int, k: int| #![trigger entries[j], entries[k]]
        0 <= j < k < entries.len()
            ==> !(entries[j].service_id == entries[k].service_id
                && entries[j].rater == entries[k].rater)
}

/// The rating stored under a key: the first entry that matches, scanning
/// from the front (with distinct keys there is at most one).
pub open spec fn rating_lookup(
    entries: Seq<RatingEntry>,
    service_id: u64,
    rater: Identity,
) -> Option<u64>
    decreases entries.len(),
{
    if entries.len() == 0 {
        None
    } else if entry_matches(entries[0], service_id, rater) {
        Some(entries[0].rating)
    } else {
        rating_lookup(entries.skip(1), service_id, rater)
    }
}

/// The stored rating under a key, or zero where none is stored; zero is the
/// same default the persistent store hands back for a key never written.
pub open spec fn rating_or_zero(entries: Seq<RatingEntry>, service_id: u64, rater: Identity) -> u64 {
    match rating_lookup(entries, service_id, rater) {
        Some(v) => v,
        None => 0,
    }
}

/// A key that matches no entry has no stored rating.
proof fn lemma_lookup_none(entries: Seq<RatingEntry>, service_id: u64, rater: Identity)
    requires
        forall|j: int| 0 <= j < entries.len()
            ==> !entry_matches(#[trigger] entries[j], service_id, rater),
    ensures
        rating_lookup(entries, service_id, rater) is None,
    decreases entries.len(),
{
    if entries.len() > 0 {
        assert forall|j: int| 0 <= j < entries.skip(1).len()
            implies !entry_matches(#[trigger] entries.skip(1)[j], service_id, rater) by {
            assert(entries.skip(1)[j] == entries[j + 1]);
        }
        lemma_lookup_none(entries.skip(1), service_id, rater);
    }
}

/// The first matching entry decides the stored rating.
proof fn lemma_lookup_first_match(
    entries: Seq<RatingEntry>,
    i: int,
    service_id: u64,
    rater: Identity,
)
    requires
        0 <= i < entries.len(),
        forall|j: int| 0 <= j < i ==> !entry_matches(#[trigger] entries[j], service_id, rater),
        entry_matches(entries[i], service_id, rater),
    ensures
        rating_lookup(entries, service_id, rater) == Some(entries[i].rating),
    decreases i,
{
    if i > 0 {
        assert forall|j: int| 0 <= j < i - 1
            implies !entry_matches(#[trigger] entries.skip(1)[j], service_id, rater) by {
            assert(entries.skip(1)[j] == entries[j + 1]);
        }
        assert(entries.skip(1)[i - 1] == entries[i]);
        lemma_lookup_first_match(entries.skip(1), i - 1, service_id, rater);
    }
}

/// Replacing the first entry that matches a key with a new entry under the
/// same key stores the new rating for that key and leaves every other
/// key's rating unchanged.
proof fn lemma_lookup_update(
    entries: Seq<RatingEntry>,
    i: int,
    e: RatingEntry,
    sid2: u64,
    rater2: Identity,
)
    requires
        0 <= i < entries.len(),
        forall|j: int| 0 <= j < i ==> !entry_matches(#[trigger] entries[j], e.service_id, e.rater),
        entry_matches(entries[i], e.service_id, e.rater),
    ensures
        rating_lookup(entries.update(i, e), e.service_id, e.rater) == Some(e.rating),
        !(sid2 == e.service_id && rater2 == e.rater)
            ==> rating_lookup(entries.update(i, e), sid2, rater2)
                == rating_lookup(entries, sid2, rater2),
    decreases entries.len(),
{
    let updated = entries.update(i, e);
    if i == 0 {
        assert(updated[0] == e);
        assert(updated.skip(1) =~= entries.skip(1));
    } else {
        assert(updated[0] == entries[0]);
        assert(updated.skip(1) =~= entries.skip(1).update(i - 1, e));
        assert forall|j: int| 0 <= j < i - 1
            implies !entry_matches(#[trigger] entries.skip(1)[j], e.service_id, e.rater) by {
            assert(entries.skip(1)[j] == entries[j + 1]);
        }
        assert(entries.skip(1)[i - 1] == entries[i]);
        lemma_lookup_update(entries.skip(1), i - 1, e, sid2, rater2);
    }
}

/// Appending an entry under a fresh key stores its rating for that key and
/// leaves every other key's rating unchanged.
proof fn lemma_lookup_push(entries: Seq<RatingEntry>, e: RatingEntry, sid2: u64, rater2: Identity)
    requires
        forall|j: int| 0 <= j < entries.len()
            ==> !entry_matches(#[trigger] entries[j], e.service_id, e.rater),
    ensures
        rating_lookup(entries.push(e), e.service_id, e.rater) == Some(e.rating),
        !(sid2 == e.service_id && rater2 == e.rater)
            ==> rating_lookup(entries.push(e), sid2, rater2)
                == rating_lookup(entries, sid2, rater2),
    decreases entries.len(),
{
    let pushed = entries.push(e);
    if entries.len() == 0 {
        assert(pushed[0] == e);
        assert(pushed.skip(1) =~= Seq::<RatingEntry>::empty());
        assert(rating_lookup(pushed.skip(1), sid2, rater2) is None);
        assert(rating_lookup(entries, sid2, rater2) is None);
    } else {
        assert(pushed[0] == entries[0]);
        assert(pushed.skip(1) =~= entries.skip(1).push(e));
        assert forall|j: int| 0 <= j < entries.skip(1).len()
            implies !entry_matches(#[trigger] entries.skip(1)[j], e.service_id, e.rater) by {
            assert(entries.skip(1)[j] == entries[j + 1]);
        }
        lemma_lookup_push(entries.skip(1), e, sid2, rater2);
    }
}

/// Records `rating` under (service_id, rater): overwrites the one existing
/// entry for that key, or appends a new entry where the key is fresh.
pub fn store_rating(entries: &mut Vec<RatingEntry>, service_id: u64, rater: Identity, rating: u64)
    requires
        distinct_rating_keys(old(entries)@),
    ensures
        distinct_rating_keys(final(entries)@),
        rating_lookup(final(entries)@, service_id, rater) == Some(rating),
        forall|sid2: u64, rater2: Identity|
            #![trigger rating_lookup(final(entries)@, sid2, rater2)]
            !(sid2 == service_id && rater2 == rater)
                ==> rating_lookup(final(entries)@, sid2, rater2)
                    == rating_lookup(old(entries)@, sid2, rater2),
        rating_lookup(old(entries)@, service_id, rater) is Some
            ==> final(entries)@.len() == old(entries)@.len(),
        rating_lookup(old(entries)@, service_id, rater) is None
            ==> final(entries)@ =~= old(entries)@.push((RatingEntry { service_id, rater, rating })),
        forall|j: int| 0 <= j < final(entries)@.len()
            ==> (#[trigger] final(entries)@[j]) == (RatingEntry { service_id, rater, rating })
                || (j < old(entries)@.len() && final(entries)@[j] == old(entries)@[j]),
{
    let e_new = RatingEntry { service_id, rater, rating };
    let n = entries.len();
    let mut i: usize = 0;
    while i < n
        invariant
            i <= n,
            n == entries@.len(),
            entries@ == old(entries)@,
            e_new == (RatingEntry { service_id, rater, rating }),
            distinct_rating_keys(entries@),
            forall|j: int| 0 <= j < i ==> !entry_matches(#[trigger] entries@[j], service_id, rater),
        decreases n - i,
    {
        if entries[i].service_id == service_id && entries[i].rater == rater {
            proof {
                let pre = entries@;
                let updated = pre.update(i as int, e_new);
                assert(e_new.service_id == service_id && e_new.rater == rater);
                assert forall|j: int| 0 <= j < i as int
                    implies !entry_matches(#[trigger] pre[j], e_new.service_id, e_new.rater) by {
                    assert(!entry_matches(entries@[j], service_id, rater));
                }
                lemma_lookup_first_match(pre, i as int, service_id, rater);
                lemma_lookup_update(pre, i as int, e_new, service_id, rater);
                assert forall|sid2: u64, rater2: Identity|
                    !(sid2 == service_id && rater2 == rater)
                    implies rating_lookup(updated, sid2, rater2)
                        == rating_lookup(pre, sid2, rater2) by {
                    lemma_lookup_update(pre, i as int, e_new, sid2, rater2);
                }
                assert forall|j: int, k: int| 0 <= j < k < updated.len()
                    implies !(updated[j].service_id == updated[k].service_id
                        && updated[j].rater == updated[k].rater) by {
                    assert(updated[j].service_id == pre[j].service_id
                        && updated[j].rater == pre[j].rater);
                    assert(updated[k].service_id == pre[k].service_id
                        && updated[k].rater == pre[k].rater);
                }
                assert forall|j: int| 0 <= j < updated.len()
                    implies updated[j] == e_new || (j < pre.len() && updated[j] == pre[j]) by {
                }
            }
            let slot = &mut entries[i];
            *slot = e_new;
            proof {
                assert(entries@ =~= old(entries)@.update(i as int, e_new));
            }
            return ;
        }
        i += 1;
    }
    entries.push(e_new);
    proof {
        lemma_lookup_none(old(entries)@, service_id, rater);
        lemma_lookup_push(old(entries)@, e_new, service_id, rater);
        assert forall|sid2: u64, rater2: Identity|
            !(sid2 == service_id && rater2 == rater)
            implies rating_lookup(entries@, sid2, rater2)
                == rating_lookup(old(entries)@, sid2, rater2) by {
            lemma_lookup_push(old(entries)@, e_new, sid2, rater2);
        }
        assert forall|j: int, k: int| 0 <= j < k < entries@.len()
            implies !(entries@[j].service_id == entries@[k].service_id
                && entries@[j].rater == entries@[k].rater) by {
            if k == entries@.len() - 1 {
                assert(entries@[j] == old(entries)@[j]);
                assert(!entry_matches(old(entries)@[j], service_id, rater));
            } else {
                assert(entries@[j] == old(entries)@[j]);
                assert(entries@[k] == old(entries)@[k]);
            }
        }
    }
}

/// Reads the stored rating under (service_id, rater), or zero where the
/// rater has never rated that service id.
pub fn find_rating(entries: &Vec<RatingEntry>, service_id: u64, rater: Identity) -> (r: u64)
    ensures
        r == rating_or_zero(entries@, service_id, rater),
{
    let n = entries.len();
    let mut i: usize = 0;
    while i < n
        invariant
            i <= n,
            n == entries@.len(),
            forall|j: int| 0 <= j < i ==> !entry_matches(#[trigger] entries@[j], service_id, rater),
        decreases n - i,
    {
        if entries[i].service_id == service_id && entries[i].rater == rater {
            proof {
                lemma_lookup_first_match(entries@, i as int, service_id, rater);
            }
            return entries[i].rating;
        }
        i += 1;
    }
    proof {
        lemma_lookup_none(entries@, service_id, rater);
    }
    0
}

} // verus!
