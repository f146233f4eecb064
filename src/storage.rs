use vstd::prelude::*;

use crate::domain::{eligible, KeyDomain};
use crate::key::{charged, effective_uses, PgKey};
use crate::retry::PgStorageError;

verus! {

/// Reason codes that, by default, mean a key is gone for good: incorrect
/// key, key owner in federal jail, key owner inactive.
pub const DEFAULT_INVALIDATING_CODES: [u8; 3] = [2, 10, 13];

/// Whether `keys` may be held by a pool whose limit is `limit`: every stored
/// count lies within the limit and no two keys share an id.
pub open spec fn keys_wf(keys: Seq<PgKey>, limit: i16) -> bool {
    &&& limit >= 0
    &&& forall|i: int| 0 <= i < keys.len() ==> 0 <= #[trigger] keys[i].uses <= limit
    &&& forall|i: int, j: int|
        0 <= i < keys.len() && 0 <= j < keys.len() && i != j ==> #[trigger] keys[i].id
            != #[trigger] keys[j].id
}

/// Whether key `i` of `keys` may be handed out for `domain` at time `now`.
pub open spec fn candidate(keys: Seq<PgKey>, limit: i16, domain: KeyDomain, now: i64, i: int) -> bool {
    &&& 0 <= i < keys.len()
    &&& eligible(domain, keys[i])
    &&& effective_uses(keys[i], now) < limit
}

/// Whether some key of `keys` may be handed out for `domain` at time `now`.
pub open spec fn has_candidate(keys: Seq<PgKey>, limit: i16, domain: KeyDomain, now: i64) -> bool {
    exists|i: int| candidate(keys, limit, domain, now, i)
}

/// Order of preference: the least recently used key first, then the lower id.
pub open spec fn precedes(a: PgKey, b: PgKey) -> bool {
    a.last_used < b.last_used || (a.last_used == b.last_used && a.id <= b.id)
}

/// Whether key `i` is the one that an allocation for `domain` at `now` picks.
pub open spec fn lru_choice(keys: Seq<PgKey>, limit: i16, domain: KeyDomain, now: i64, i: int) -> bool {
    &&& candidate(keys, limit, domain, now, i)
    &&& forall|j: int| #[trigger] candidate(keys, limit, domain, now, j) ==> precedes(keys[i], keys[j])
}

/// Whether the pool going from `before` to `after`, with result `r`, is an
/// allocation for `domain` at time `now`: the preferred candidate is charged
/// one use and a copy of it returned, or, where there is no candidate,
/// nothing changes and the domain is reported unavailable.
pub open spec fn allocation(
    before: Seq<PgKey>,
    after: Seq<PgKey>,
    limit: i16,
    domain: KeyDomain,
    now: i64,
    r: Result<PgKey, PgStorageError>,
) -> bool {
    match r {
        Ok(k) => exists|i: int|
            #[trigger] lru_choice(before, limit, domain, now, i) && after == before.update(
                i,
                charged(before[i], now),
            ) && snapshot_of(k, charged(before[i], now)),
        Err(e) => e == PgStorageError::Unavailable(domain) && !has_candidate(
            before,
            limit,
            domain,
            now,
        ) && after == before,
    }
}

/// Whether the pool going from `before` to `after`, with result `r`, is the
/// flagging of the key with id `id` for reason `code`, where `codes` are the
/// reason codes that delete: the key is deleted, and `r` is true, exactly
/// when the code is one of them and the pool held the key.
pub open spec fn flagging(
    before: Seq<PgKey>,
    after: Seq<PgKey>,
    codes: Seq<u8>,
    id: i32,
    code: u8,
    r: bool,
) -> bool {
    &&& r == (codes.contains(code) && holds_id(before, id))
    &&& r ==> exists|i: int|
        0 <= i < before.len() && #[trigger] before[i].id == id && after == before.remove(i)
    &&& r ==> !holds_id(after, id)
    &&& !r ==> after == before
}

/// Whether `r` is a copy of `k`.
pub open spec fn snapshot_of(r: PgKey, k: PgKey) -> bool {
    &&& r.id == k.id
    &&& r.user_id == k.user_id
    &&& r.faction_id == k.faction_id
    &&& r.key@ == k.key@
    &&& r.uses == k.uses
    &&& r.user == k.user
    &&& r.faction == k.faction
    &&& r.last_used == k.last_used
}

/// Whether some key of `keys` has id `id`.
pub open spec fn holds_id(keys: Seq<PgKey>, id: i32) -> bool {
    exists|i: int| 0 <= i < keys.len() && #[trigger] keys[i].id == id
}

/// Removing the key with some id from a well-formed pool leaves no key with
/// that id, and the pool well-formed.
pub proof fn lemma_remove_drops_id(keys: Seq<PgKey>, limit: i16, i: int)
    requires
        keys_wf(keys, limit),
        0 <= i < keys.len(),
    ensures
        keys_wf(keys.remove(i), limit),
        !holds_id(keys.remove(i), keys[i].id),
        forall|j: int| 0 <= j < keys.remove(i).len() ==> #[trigger] keys.remove(i)[j] == keys[if j < i { j } else { j + 1 }],
{
    let rest = keys.remove(i);
    assert forall|j: int| 0 <= j < rest.len() implies #[trigger] rest[j] == keys[if j < i { j } else { j + 1 }] by {}
    assert forall|j: int| 0 <= j < rest.len() implies #[trigger] rest[j].id != keys[i].id by {
        let k = if j < i { j } else { j + 1 };
        assert(rest[j] == keys[k]);
    }
    assert forall|x: int, y: int|
        0 <= x < rest.len() && 0 <= y < rest.len() && x != y implies #[trigger] rest[x].id != #[trigger] rest[y].id by {
        let kx = if x < i { x } else { x + 1 };
        let ky = if y < i { y } else { y + 1 };
        assert(rest[x] == keys[kx]);
        assert(rest[y] == keys[ky]);
    }
    assert forall|j: int| 0 <= j < rest.len() implies 0 <= #[trigger] rest[j].uses <= limit by {
        let k = if j < i { j } else { j + 1 };
        assert(rest[j] == keys[k]);
    }
}

/// Whether `code` is one of `codes`: where `codes` are the reason codes
/// that mean a key is gone for good, whether a key flagged with `code` must
/// be deleted.
pub fn is_invalidating_code(codes: &Vec<u8>, code: u8) -> (r: bool)
    ensures
        r == codes@.contains(code),
{
    let mut i: usize = 0;
    while i < codes.len()
        invariant
            0 <= i <= codes@.len(),
            forall|j: int| 0 <= j < i ==> codes@[j] != code,
        decreases codes@.len() - i,
    {
        if codes[i] == code {
            assert(codes@[i as int] == code);
            return true;
        }
        i = i + 1;
    }
    false
}

/// A copy of `k`.
pub fn copy_key(k: &PgKey) -> (r: PgKey)
    ensures
        snapshot_of(r, *k),
{
    PgKey {
        id: k.id,
        user_id: k.user_id,
        faction_id: k.faction_id,
        key: k.key.clone(),
        uses: k.uses,
        user: k.user,
        faction: k.faction,
        last_used: k.last_used,
    }
}

/// Relies on chrono::Utc::now: the current time as seconds since the Unix
/// epoch. Nothing is promised of the value.
#[verifier::external_body]
fn now_timestamp() -> (r: i64) {
    chrono::Utc::now().timestamp()
}

/// A key pool held in memory. Each operation takes the pool by `&mut`, so
/// allocations are serialised and each one reads what the last one wrote.
pub struct MemKeyPoolStorage {
    keys: Vec<PgKey>,
    limit: i16,
    invalidating_codes: Vec<u8>,
    next_id: i32,
}

impl MemKeyPoolStorage {
    /// The keys held, in order of provisioning.
    pub closed spec fn keys(&self) -> Seq<PgKey> {
        self.keys@
    }

    /// The most uses that a key may have in one minute-bucket.
    pub closed spec fn limit(&self) -> i16 {
        self.limit
    }

    /// The reason codes on which a flagged key is deleted.
    pub closed spec fn invalidating_codes(&self) -> Seq<u8> {
        self.invalidating_codes@
    }

    /// The id that the next provisioned key gets.
    pub closed spec fn next_id(&self) -> i32 {
        self.next_id
    }

    pub closed spec fn wf(&self) -> bool {
        &&& keys_wf(self.keys@, self.limit)
        &&& forall|i: int| 0 <= i < self.keys@.len() ==> #[trigger] self.keys@[i].id < self.next_id
    }

    /// An empty pool whose keys may each be used `limit` times a minute.
    pub fn new(limit: i16) -> (r: Self)
        requires
            limit >= 0,
        ensures
            r.wf(),
            r.keys() == Seq::<PgKey>::empty(),
            r.limit() == limit,
            r.invalidating_codes() == seq![2u8, 10u8, 13u8],
    {
        let codes: Vec<u8> = vec![
            DEFAULT_INVALIDATING_CODES[0],
            DEFAULT_INVALIDATING_CODES[1],
            DEFAULT_INVALIDATING_CODES[2],
        ];
        MemKeyPoolStorage { keys: Vec::new(), limit, invalidating_codes: codes, next_id: 1 }
    }

    /// An empty pool that deletes flagged keys on the reason codes `codes`.
    pub fn with_invalidating_codes(limit: i16, codes: Vec<u8>) -> (r: Self)
        requires
            limit >= 0,
        ensures
            r.wf(),
            r.keys() == Seq::<PgKey>::empty(),
            r.limit() == limit,
            r.invalidating_codes() == codes@,
    {
        MemKeyPoolStorage { keys: Vec::new(), limit, invalidating_codes: codes, next_id: 1 }
    }

    /// The most uses that a key may have in one minute-bucket.
    pub fn get_limit(&self) -> (r: i16)
        ensures
            r == self.limit(),
    {
        self.limit
    }

    /// How many keys the pool holds.
    pub fn len(&self) -> (r: usize)
        ensures
            r == self.keys().len(),
    {
        self.keys.len()
    }

    /// The key with id `id`, if the pool holds it.
    pub fn key_by_id(&self, id: i32) -> (r: Option<&PgKey>)
        requires
            self.wf(),
        ensures
            r is None <==> !holds_id(self.keys(), id),
            r matches Some(k) ==> k.id == id && self.keys().contains(*k),
    {
        let mut i: usize = 0;
        while i < self.keys.len()
            invariant
                0 <= i <= self.keys@.len(),
                forall|j: int| 0 <= j < i ==> self.keys@[j].id != id,
            decreases self.keys@.len() - i,
        {
            if self.keys[i].id == id {
                return Some(&self.keys[i]);
            }
            i = i + 1;
        }
        None
    }

    /// Hands out the preferred key for `domain` at time `now` and charges it
    /// one use: among the keys that `domain` admits and that are under the
    /// limit in `now`'s minute-bucket, the least recently used, the lower id
    /// on a tie. Uses from an earlier minute-bucket no longer count.
    pub fn acquire_key_at(&mut self, domain: KeyDomain, now: i64) -> (r: Result<PgKey, PgStorageError>)
        requires
            old(self).wf(),
        ensures
            final(self).wf(),
            final(self).limit() == old(self).limit(),
            final(self).invalidating_codes() == old(self).invalidating_codes(),
            final(self).next_id() == old(self).next_id(),
            allocation(old(self).keys(), final(self).keys(), old(self).limit(), domain, now, r),
            r is Ok <==> has_candidate(old(self).keys(), old(self).limit(), domain, now),
    {
        let mut best: Option<usize> = None;
        let mut i: usize = 0;
        while i < self.keys.len()
            invariant
                0 <= i <= self.keys@.len(),
                best matches Some(b) ==> b < i && candidate(self.keys@, self.limit, domain, now, b as int)
                    && forall|j: int|
                    0 <= j < i && #[trigger] candidate(self.keys@, self.limit, domain, now, j)
                        ==> precedes(self.keys@[b as int], self.keys@[j]),
                best is None ==> forall|j: int|
                    0 <= j < i ==> !#[trigger] candidate(self.keys@, self.limit, domain, now, j),
            decreases self.keys@.len() - i,
        {
            let k = &self.keys[i];
            if domain.admits(k) && k.uses_at(now) < self.limit {
                match best {
                    None => {
                        best = Some(i);
                    },
                    Some(b) => {
                        let c = &self.keys[b];
                        if k.last_used < c.last_used || (k.last_used == c.last_used && k.id < c.id) {
                            best = Some(i);
                        }
                    },
                }
            }
            i = i + 1;
        }
        match best {
            None => {
                let r = Err(PgStorageError::Unavailable(domain));
                assert(!has_candidate(self.keys@, self.limit, domain, now));
                r
            },
            Some(b) => {
                let ghost before = self.keys@;
                assert(lru_choice(before, self.limit, domain, now, b as int));
                let old_key = self.keys.remove(b);
                let uses = old_key.uses_at(now) + 1;
                let updated = PgKey { uses, last_used: now, ..old_key };
                let snapshot = copy_key(&updated);
                self.keys.insert(b, updated);
                assert(self.keys@ =~= before.update(b as int, charged(before[b as int], now)));
                assert(keys_wf(self.keys@, self.limit)) by {
                    assert forall|x: int, y: int|
                        0 <= x < self.keys@.len() && 0 <= y < self.keys@.len() && x != y implies #[trigger] self.keys@[x].id
                            != #[trigger] self.keys@[y].id by {
                        assert(self.keys@[x].id == before[x].id);
                        assert(self.keys@[y].id == before[y].id);
                    }
                }
                Ok(snapshot)
            },
        }
    }

    /// Hands out the preferred key for `domain` at the current time, as
    /// `acquire_key_at` does.
    pub fn acquire_key(&mut self, domain: KeyDomain) -> (r: Result<PgKey, PgStorageError>)
        requires
            old(self).wf(),
        ensures
            final(self).wf(),
            final(self).limit() == old(self).limit(),
            final(self).invalidating_codes() == old(self).invalidating_codes(),
            final(self).next_id() == old(self).next_id(),
            exists|now: i64|
                allocation(old(self).keys(), final(self).keys(), old(self).limit(), domain, now, r),
    {
        let now = now_timestamp();
        self.acquire_key_at(domain, now)
    }

    /// Whether `code` is one of the reason codes on which a flagged key is
    /// deleted.
    pub fn is_invalidating(&self, code: u8) -> (r: bool)
        ensures
            r == self.invalidating_codes().contains(code),
    {
        is_invalidating_code(&self.invalidating_codes, code)
    }

    /// Reports that the remote API refused `key` with reason `code`. Where
    /// the code means the key is gone for good, the key is deleted. Returns
    /// whether a key was deleted: flagging a key that is no longer held
    /// changes nothing.
    pub fn flag_key(&mut self, key: &PgKey, code: u8) -> (r: bool)
        requires
            old(self).wf(),
        ensures
            final(self).wf(),
            final(self).limit() == old(self).limit(),
            final(self).invalidating_codes() == old(self).invalidating_codes(),
            final(self).next_id() == old(self).next_id(),
            flagging(
                old(self).keys(),
                final(self).keys(),
                old(self).invalidating_codes(),
                key.id,
                code,
                r,
            ),
    {
        if !self.is_invalidating(code) {
            return false;
        }
        let mut i: usize = 0;
        while i < self.keys.len()
            invariant
                0 <= i <= self.keys@.len(),
                self.keys@ == old(self).keys@,
                self.limit == old(self).limit,
                self.invalidating_codes@ == old(self).invalidating_codes@,
                self.next_id == old(self).next_id,
                self.invalidating_codes@.contains(code),
                self.wf(),
                forall|j: int| 0 <= j < i ==> self.keys@[j].id != key.id,
            decreases self.keys@.len() - i,
        {
            if self.keys[i].id == key.id {
                let ghost before = self.keys@;
                self.keys.remove(i);
                proof {
                    lemma_remove_drops_id(before, self.limit, i as int);
                    assert forall|j: int| 0 <= j < self.keys@.len() implies #[trigger] self.keys@[j].id
                        < self.next_id by {
                        let k = if j < i { j } else { j + 1 };
                        assert(self.keys@[j] == before[k]);
                    }
                }
                return true;
            }
            i = i + 1;
        }
        false
    }

    /// Stores a new key with no uses, last used at `now`, under a fresh id.
    /// Fails only when the ids are exhausted.
    pub fn add_key(
        &mut self,
        user_id: i32,
        faction_id: Option<i32>,
        key: String,
        user: bool,
        faction: bool,
        now: i64,
    ) -> (r: Option<i32>)
        requires
            old(self).wf(),
        ensures
            final(self).wf(),
            final(self).limit() == old(self).limit(),
            final(self).invalidating_codes() == old(self).invalidating_codes(),
            r is None <==> old(self).next_id() == i32::MAX,
            r is None ==> final(self).keys() == old(self).keys(),
            r matches Some(id) ==> !holds_id(old(self).keys(), id) && final(self).keys()
                == old(self).keys().push(
                PgKey { id, user_id, faction_id, key, uses: 0, user, faction, last_used: now },
            ),
    {
        if self.next_id == i32::MAX {
            return None;
        }
        let id = self.next_id;
        self.keys.push(PgKey { id, user_id, faction_id, key, uses: 0, user, faction, last_used: now });
        self.next_id = id + 1;
        Some(id)
    }
}

} // verus!
