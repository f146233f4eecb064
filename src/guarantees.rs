//! What the pool guarantees across calls, proved over the contracts of its
//! operations.
use vstd::prelude::*;

use crate::domain::{eligible, KeyDomain};
use crate::key::{bucket, charged, effective_uses, PgKey};
use crate::retry::PgStorageError;
use crate::storage::{
    allocation, candidate, flagging, has_candidate, holds_id, keys_wf, lru_choice, precedes,
    snapshot_of,
};

verus! {

/// How many more uses the keys of `keys` can serve, all together, in the
/// minute-bucket of `now`.
pub open spec fn spare(keys: Seq<PgKey>, limit: i16, now: i64) -> int
    decreases keys.len(),
{
    if keys.len() == 0 {
        0
    } else {
        spare(keys.drop_last(), limit, now) + (limit - effective_uses(keys.last(), now))
    }
}

/// In a well-formed pool the spare capacity is never negative, and it is
/// positive exactly when some key may be handed out for the public domain.
pub proof fn lemma_spare_positive(keys: Seq<PgKey>, limit: i16, now: i64)
    requires
        keys_wf(keys, limit),
    ensures
        spare(keys, limit, now) >= 0,
        spare(keys, limit, now) > 0 <==> has_candidate(keys, limit, KeyDomain::Public, now),
    decreases keys.len(),
{
    if keys.len() > 0 {
        let init = keys.drop_last();
        let n = keys.len() - 1;
        assert(keys[n] == keys.last());
        assert(keys_wf(init, limit)) by {
            assert forall|i: int| 0 <= i < init.len() implies 0 <= #[trigger] init[i].uses <= limit by {
                assert(init[i] == keys[i]);
            }
            assert forall|i: int, j: int|
                0 <= i < init.len() && 0 <= j < init.len() && i != j implies #[trigger] init[i].id
                    != #[trigger] init[j].id by {
                assert(init[i] == keys[i]);
                assert(init[j] == keys[j]);
            }
        }
        lemma_spare_positive(init, limit, now);
        assert(0 <= keys[n].uses <= limit);
        if effective_uses(keys[n], now) < limit {
            assert(candidate(keys, limit, KeyDomain::Public, now, n));
        }
        if has_candidate(init, limit, KeyDomain::Public, now) {
            let i = choose|i: int| candidate(init, limit, KeyDomain::Public, now, i);
            assert(init[i] == keys[i]);
            assert(candidate(keys, limit, KeyDomain::Public, now, i));
        }
        if has_candidate(keys, limit, KeyDomain::Public, now) {
            let i = choose|i: int| candidate(keys, limit, KeyDomain::Public, now, i);
            if i < n {
                assert(init[i] == keys[i]);
                assert(candidate(init, limit, KeyDomain::Public, now, i));
            }
        }
    }
}

/// Charging key `i` of a well-formed pool at time `at`, where the key is
/// under the limit, uses up exactly one unit of the spare capacity of the
/// minute-bucket of `at`, and keeps the pool well-formed.
pub proof fn lemma_charge_one(
    keys: Seq<PgKey>,
    limit: i16,
    domain: KeyDomain,
    at: i64,
    now: i64,
    i: int,
)
    requires
        keys_wf(keys, limit),
        candidate(keys, limit, domain, at, i),
        bucket(at as int) == bucket(now as int),
    ensures
        keys_wf(keys.update(i, charged(keys[i], at)), limit),
        spare(keys.update(i, charged(keys[i], at)), limit, now) == spare(keys, limit, now) - 1,
    decreases keys.len(),
{
    let after = keys.update(i, charged(keys[i], at));
    assert(effective_uses(charged(keys[i], at), now) == effective_uses(keys[i], now) + 1);
    assert(keys_wf(after, limit)) by {
        assert forall|x: int, y: int|
            0 <= x < after.len() && 0 <= y < after.len() && x != y implies #[trigger] after[x].id
                != #[trigger] after[y].id by {
            assert(after[x].id == keys[x].id);
            assert(after[y].id == keys[y].id);
        }
    }
    let n = keys.len() - 1;
    if i == n {
        assert(after.drop_last() =~= keys.drop_last());
        assert(after.last() == charged(keys[i], at));
    } else {
        let init = keys.drop_last();
        assert(init[i] == keys[i]);
        assert(after.drop_last() =~= init.update(i, charged(init[i], at)));
        assert(after.last() == keys.last());
        assert(keys_wf(init, limit)) by {
            assert forall|a: int| 0 <= a < init.len() implies 0 <= #[trigger] init[a].uses <= limit by {
                assert(init[a] == keys[a]);
            }
            assert forall|a: int, b: int|
                0 <= a < init.len() && 0 <= b < init.len() && a != b implies #[trigger] init[a].id
                    != #[trigger] init[b].id by {
                assert(init[a] == keys[a]);
                assert(init[b] == keys[b]);
            }
        }
        lemma_charge_one(init, limit, domain, at, now, i);
    }
}

/// Within one minute-bucket, keys are never handed out twice for the same
/// use: where `n` public allocations run one after another, at times in the
/// minute-bucket of `now`, on a well-formed pool whose spare capacity in
/// that bucket is at least `n`, every one of them succeeds, each uses up
/// exactly one unit of capacity, and no key's count ever exceeds the limit.
pub proof fn lemma_exclusive_allocations(
    states: Seq<Seq<PgKey>>,
    results: Seq<Result<PgKey, PgStorageError>>,
    times: Seq<i64>,
    limit: i16,
    now: i64,
)
    requires
        states.len() == results.len() + 1,
        times.len() == results.len(),
        keys_wf(states[0], limit),
        spare(states[0], limit, now) >= results.len(),
        forall|t: int| 0 <= t < times.len() ==> bucket(#[trigger] times[t] as int) == bucket(now as int),
        forall|t: int|
            0 <= t < results.len() ==> #[trigger] allocation(
                states[t],
                states[t + 1],
                limit,
                KeyDomain::Public,
                times[t],
                results[t],
            ),
    ensures
        forall|t: int| 0 <= t < results.len() ==> #[trigger] results[t] is Ok,
        forall|t: int|
            0 <= t < states.len() ==> keys_wf(#[trigger] states[t], limit) && spare(
                states[t],
                limit,
                now,
            ) == spare(states[0], limit, now) - t,
    decreases results.len(),
{
    if results.len() > 0 {
        let m = results.len() - 1;
        let s2 = states.drop_last();
        let r2 = results.drop_last();
        let t2 = times.drop_last();
        assert forall|t: int| 0 <= t < t2.len() implies bucket(#[trigger] t2[t] as int) == bucket(
            now as int,
        ) by {
            assert(t2[t] == times[t]);
        }
        assert forall|t: int| 0 <= t < r2.len() implies #[trigger] allocation(
            s2[t],
            s2[t + 1],
            limit,
            KeyDomain::Public,
            t2[t],
            r2[t],
        ) by {
            assert(allocation(states[t], states[t + 1], limit, KeyDomain::Public, times[t], results[t]));
        }
        lemma_exclusive_allocations(s2, r2, t2, limit, now);
        let at = times[m];
        assert(bucket(at as int) == bucket(now as int));
        assert(s2[m] == states[m]);
        assert(keys_wf(states[m], limit));
        assert(spare(states[m], limit, now) == spare(states[0], limit, now) - m);
        lemma_spare_positive(states[m], limit, now);
        let w = choose|w: int| candidate(states[m], limit, KeyDomain::Public, now, w);
        assert(candidate(states[m], limit, KeyDomain::Public, at, w));
        assert(allocation(states[m], states[m + 1], limit, KeyDomain::Public, at, results[m]));
        assert(results[m] is Ok);
        let k = results[m]->Ok_0;
        let i = choose|i: int|
            #[trigger] lru_choice(states[m], limit, KeyDomain::Public, at, i) && states[m + 1]
                == states[m].update(i, charged(states[m][i], at)) && snapshot_of(
                k,
                charged(states[m][i], at),
            );
        lemma_charge_one(states[m], limit, KeyDomain::Public, at, now, i);
        assert forall|t: int| 0 <= t < results.len() implies #[trigger] results[t] is Ok by {
            if t < m {
                assert(r2[t] == results[t]);
            }
        }
        assert forall|t: int| 0 <= t < states.len() implies keys_wf(#[trigger] states[t], limit)
            && spare(states[t], limit, now) == spare(states[0], limit, now) - t by {
            if t <= m {
                assert(s2[t] == states[t]);
            }
        }
    }
}

/// Every key handed out is admitted by the requested domain: never a key
/// not opened to its owner's requests for a user domain, never a key
/// without a faction for a faction domain.
pub proof fn lemma_domain_isolation(
    before: Seq<PgKey>,
    after: Seq<PgKey>,
    limit: i16,
    domain: KeyDomain,
    now: i64,
    r: Result<PgKey, PgStorageError>,
)
    requires
        allocation(before, after, limit, domain, now, r),
    ensures
        r matches Ok(k) ==> eligible(domain, k),
        r matches Ok(k) ==> (domain matches KeyDomain::User(u) ==> k.user && k.user_id == u),
        r matches Ok(k) ==> (domain matches KeyDomain::Faction(_) ==> k.faction_id is Some
            && k.faction),
{
}

/// A key whose count reached the limit in an earlier minute-bucket may be
/// handed out again, and handing it out brings its count to one.
pub proof fn lemma_window_reset(keys: Seq<PgKey>, limit: i16, domain: KeyDomain, now: i64, i: int)
    requires
        0 <= i < keys.len(),
        eligible(domain, keys[i]),
        bucket(keys[i].last_used as int) < bucket(now as int),
        keys[i].uses == limit,
        limit > 0,
    ensures
        candidate(keys, limit, domain, now, i),
        charged(keys[i], now).uses == 1,
{
}

/// Of two keys that may both be handed out, the one used less recently goes
/// first: the more recently used one is not what an allocation returns.
pub proof fn lemma_lru_preference(
    before: Seq<PgKey>,
    after: Seq<PgKey>,
    limit: i16,
    domain: KeyDomain,
    now: i64,
    r: Result<PgKey, PgStorageError>,
    older: int,
    newer: int,
)
    requires
        keys_wf(before, limit),
        allocation(before, after, limit, domain, now, r),
        candidate(before, limit, domain, now, older),
        candidate(before, limit, domain, now, newer),
        before[older].last_used < before[newer].last_used,
    ensures
        r is Ok,
        r matches Ok(k) ==> k.id != before[newer].id,
{
    if r is Ok {
        let k = r->Ok_0;
        let i = choose|i: int|
            #[trigger] lru_choice(before, limit, domain, now, i) && after == before.update(
                i,
                charged(before[i], now),
            ) && snapshot_of(k, charged(before[i], now));
        assert(candidate(before, limit, domain, now, older));
        assert(i != newer);
    }
}

/// The choice of key is deterministic: in a well-formed pool at most one
/// key is the preferred candidate for a domain at a given time.
pub proof fn lemma_choice_unique(
    keys: Seq<PgKey>,
    limit: i16,
    domain: KeyDomain,
    now: i64,
    i: int,
    j: int,
)
    requires
        keys_wf(keys, limit),
        lru_choice(keys, limit, domain, now, i),
        lru_choice(keys, limit, domain, now, j),
    ensures
        i == j,
{
    assert(candidate(keys, limit, domain, now, j));
    assert(candidate(keys, limit, domain, now, i));
    assert(precedes(keys[i], keys[j]));
    assert(precedes(keys[j], keys[i]));
}

/// Where every key that a domain admits has reached the limit in the
/// current minute-bucket, allocation fails with `Unavailable` for that
/// domain and changes nothing.
pub proof fn lemma_exhaustion(
    before: Seq<PgKey>,
    after: Seq<PgKey>,
    limit: i16,
    domain: KeyDomain,
    now: i64,
    r: Result<PgKey, PgStorageError>,
)
    requires
        allocation(before, after, limit, domain, now, r),
        forall|i: int|
            0 <= i < before.len() && eligible(domain, #[trigger] before[i]) ==> bucket(
                before[i].last_used as int,
            ) == bucket(now as int) && before[i].uses == limit,
    ensures
        r matches Err(e) && e == PgStorageError::Unavailable(domain),
        after == before,
{
    assert(!has_candidate(before, limit, domain, now));
}

/// Flagging a key twice with a code that deletes deletes it the first time
/// and, the second time, changes nothing and reports no deletion.
pub proof fn lemma_invalidation_idempotent(
    k0: Seq<PgKey>,
    k1: Seq<PgKey>,
    k2: Seq<PgKey>,
    codes: Seq<u8>,
    id: i32,
    code: u8,
    r1: bool,
    r2: bool,
)
    requires
        holds_id(k0, id),
        codes.contains(code),
        flagging(k0, k1, codes, id, code, r1),
        flagging(k1, k2, codes, id, code, r2),
    ensures
        r1,
        !holds_id(k1, id),
        !r2,
        k2 == k1,
{
}

} // verus!
