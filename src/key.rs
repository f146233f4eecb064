use vstd::prelude::*;

verus! {

/// Length of a minute-bucket, in seconds.
pub const WINDOW_SECS: i64 = 60;

/// A stored API key and its bookkeeping. Times are seconds since the Unix
/// epoch.
#[derive(Debug, Clone)]
pub struct PgKey {
    pub id: i32,
    pub user_id: i32,
    pub faction_id: Option<i32>,
    pub key: String,
    pub uses: i16,
    pub user: bool,
    pub faction: bool,
    pub last_used: i64,
}

/// The minute-bucket that time `t` falls in.
pub open spec fn bucket(t: int) -> int {
    t / 60
}

/// The uses of `key` that count against the limit at time `now`: none when
/// it was last used in another minute-bucket.
pub open spec fn effective_uses(key: PgKey, now: i64) -> int {
    if bucket(key.last_used as int) == bucket(now as int) {
        key.uses as int
    } else {
        0
    }
}

/// What `key` becomes when it is handed out at time `now`.
pub open spec fn charged(key: PgKey, now: i64) -> PgKey {
    PgKey { uses: (effective_uses(key, now) + 1) as i16, last_used: now, ..key }
}

/// The minute-bucket of `t`.
pub fn minute_bucket(t: i64) -> (r: i64)
    ensures
        r == bucket(t as int),
{
    match t.checked_div_euclid(WINDOW_SECS) {
        Some(b) => b,
        None => {
            assert(false);
            0
        },
    }
}

impl PgKey {
    /// The credential itself.
    pub fn value(&self) -> (r: &str)
        ensures
            r@ == self.key@,
    {
        self.key.as_str()
    }

    /// The uses of this key that count against the limit at time `now`.
    pub fn uses_at(&self, now: i64) -> (r: i16)
        ensures
            r == effective_uses(*self, now),
    {
        if minute_bucket(self.last_used) == minute_bucket(now) {
            self.uses
        } else {
            0
        }
    }
}

} // verus!
