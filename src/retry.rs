use vstd::prelude::*;

use crate::domain::KeyDomain;
use crate::key::PgKey;

verus! {

/// Shortest pause, in milliseconds, before an allocation that lost a
/// serialisation race is tried again.
pub const BACKOFF_MIN_MS: u64 = 1;

/// Bound (exclusive), in milliseconds, of that pause.
pub const BACKOFF_MAX_MS: u64 = 50;

/// A failure reported by the database.
#[derive(Debug, Clone)]
pub struct DbError {
    /// The SQLSTATE code, where the database gave one.
    pub code: Option<String>,
    pub message: String,
}

/// What a storage operation can fail with.
#[derive(Debug, Clone)]
pub enum PgStorageError {
    /// The database failed for a reason other than a serialisation conflict.
    Pg(DbError),
    /// No key may be handed out for the domain right now.
    Unavailable(KeyDomain),
}

/// How one attempt at an allocation transaction ended.
#[derive(Debug, Clone)]
pub enum AttemptOutcome {
    /// The transaction committed, having charged this key, or none.
    Committed(Option<PgKey>),
    /// The transaction failed.
    Failed(DbError),
}

/// What to do after an attempt.
#[derive(Debug)]
pub enum RetryStep {
    /// Hand this result to the caller.
    Finish(Result<PgKey, PgStorageError>),
    /// Sleep this many milliseconds, then run the whole attempt again.
    Retry(u64),
}

/// Whether the SQLSTATE `code` reports a serialisation failure.
pub open spec fn is_conflict_code(code: Seq<char>) -> bool {
    code == "40001"@
}

/// Whether `e` reports that the transaction lost a serialisation race.
pub open spec fn is_conflict(e: DbError) -> bool {
    e.code matches Some(c) && is_conflict_code(c@)
}

/// Whether `step` is what follows the attempt that ended in `outcome`, for
/// an allocation in `domain`.
pub open spec fn retry_step(domain: KeyDomain, outcome: AttemptOutcome, step: RetryStep) -> bool {
    match outcome {
        AttemptOutcome::Committed(Some(k)) => step == RetryStep::Finish(Ok(k)),
        AttemptOutcome::Committed(None) => step == RetryStep::Finish(
            Err(PgStorageError::Unavailable(domain)),
        ),
        AttemptOutcome::Failed(e) => if is_conflict(e) {
            step matches RetryStep::Retry(ms) && BACKOFF_MIN_MS <= ms < BACKOFF_MAX_MS
        } else {
            step == RetryStep::Finish(Err(PgStorageError::Pg(e)))
        },
    }
}

/// Relies on rand::Rng::gen_range over rand::thread_rng: a value drawn from
/// the half-open range `lo..hi`, which must not be empty.
#[verifier::external_body]
fn draw_between(lo: u64, hi: u64) -> (r: u64)
    requires
        lo < hi,
    ensures
        lo <= r < hi,
{
    rand::Rng::gen_range(&mut rand::thread_rng(), lo..hi)
}

impl DbError {
    /// Whether this failure reports that the transaction lost a
    /// serialisation race, and may be retried.
    pub fn is_serialization_failure(&self) -> (r: bool)
        ensures
            r == is_conflict(*self),
    {
        match &self.code {
            Some(c) => {
                let conflict = "40001".to_owned();
                *c == conflict
            },
            None => false,
        }
    }
}

/// Decides what follows an allocation attempt in `domain`: a committed
/// attempt finishes, with the key or with `Unavailable`; a serialisation
/// failure is retried after a random pause; any other failure finishes with
/// that error.
pub fn next_step(domain: KeyDomain, outcome: AttemptOutcome) -> (r: RetryStep)
    ensures
        retry_step(domain, outcome, r),
{
    match outcome {
        AttemptOutcome::Committed(Some(k)) => RetryStep::Finish(Ok(k)),
        AttemptOutcome::Committed(None) => RetryStep::Finish(Err(PgStorageError::Unavailable(domain))),
        AttemptOutcome::Failed(e) => {
            if e.is_serialization_failure() {
                RetryStep::Retry(draw_between(BACKOFF_MIN_MS, BACKOFF_MAX_MS))
            } else {
                RetryStep::Finish(Err(PgStorageError::Pg(e)))
            }
        },
    }
}

} // verus!
