use vstd::prelude::*;

use crate::key::PgKey;

verus! {

/// The scope that a caller needs a key for.
#[derive(Debug, Clone, Copy, PartialEq, Eq, Structural)]
pub enum KeyDomain {
    /// Any key of the pool will do.
    Public,
    /// A key that its owner has opened to requests on their own behalf.
    User(i32),
    /// A key that has been opened to requests on behalf of this faction.
    Faction(i32),
}

/// Whether `key` may serve a request for `domain`, usage aside.
pub open spec fn eligible(domain: KeyDomain, key: PgKey) -> bool {
    match domain {
        KeyDomain::Public => true,
        KeyDomain::User(u) => key.user_id == u && key.user,
        KeyDomain::Faction(f) => key.faction_id == Some(f) && key.faction,
    }
}

/// The values that a storage query binds for a domain; `None` leaves a
/// column unconstrained.
#[derive(Debug, Clone, Copy, PartialEq, Eq, Structural)]
pub struct DomainParams {
    pub user_id: Option<i32>,
    pub faction_id: Option<i32>,
}

/// The filter that a row passes under `params`.
pub open spec fn passes_filter(params: DomainParams, key: PgKey) -> bool {
    &&& (params.user_id matches Some(u) ==> key.user_id == u && key.user)
    &&& (params.faction_id matches Some(f) ==> key.faction_id == Some(f) && key.faction)
}

impl KeyDomain {
    /// Whether `key` may serve a request for this domain, usage aside.
    pub fn admits(&self, key: &PgKey) -> (r: bool)
        ensures
            r == eligible(*self, *key),
    {
        match *self {
            KeyDomain::Public => true,
            KeyDomain::User(u) => key.user_id == u && key.user,
            KeyDomain::Faction(f) => match key.faction_id {
                Some(g) => g == f && key.faction,
                None => false,
            },
        }
    }

    /// The parameters to bind in a storage query for this domain, so that
    /// identifiers never become part of the query text.
    pub fn params(&self) -> (r: DomainParams)
        ensures
            forall|k: PgKey| #[trigger] passes_filter(r, k) == eligible(*self, k),
    {
        match *self {
            KeyDomain::Public => DomainParams { user_id: None, faction_id: None },
            KeyDomain::User(u) => DomainParams { user_id: Some(u), faction_id: None },
            KeyDomain::Faction(f) => DomainParams { user_id: None, faction_id: Some(f) },
        }
    }
}

} // verus!
