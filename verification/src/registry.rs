//! The two tables of the contract: the tiers by identifier and the participant
//! records by participant, each kept in a host map.

use vstd::prelude::*;

use crate::host::{
    address_key, tier_entries, tier_map_get, tier_map_new, tier_map_with, tier_rows_only,
    user_entries, user_map_get, user_map_new, user_map_with, user_rows_only, TierMap, UserMap,
};
use crate::model::{Tier, UserState};

verus! {

/// How a participant is told apart in contracts: by the key of its address.
pub type Principal = Seq<char>;

/// The tiers that the administrator has defined.
pub struct TierRegistry {
    rows: TierMap,
}

/// The participant records.
pub struct UserLedger {
    rows: UserMap,
}

/// The tiers that a host map holds, by identifier.
pub open spec fn tier_table(rows: TierMap) -> Map<u32, Tier> {
    Map::new(
        |id: u32| tier_entries(rows).contains_key(id),
        |id: u32| Tier::spec_from_row(tier_entries(rows)[id]),
    )
}

/// The participant records that a host map holds, by participant.
pub open spec fn user_table(rows: UserMap) -> Map<Principal, UserState> {
    Map::new(
        |who: Principal| user_entries(rows).contains_key(who),
        |who: Principal| UserState::spec_from_row(user_entries(rows)[who]),
    )
}

impl View for TierRegistry {
    type V = Map<u32, Tier>;

    closed spec fn view(&self) -> Map<u32, Tier> {
        tier_table(self.rows)
    }
}

impl View for UserLedger {
    type V = Map<Principal, UserState>;

    closed spec fn view(&self) -> Map<Principal, UserState> {
        user_table(self.rows)
    }
}

/// What a table holds under a key, if anything.
pub open spec fn lookup<K, V>(table: Map<K, V>, key: K) -> Option<V> {
    if table.contains_key(key) {
        Some(table[key])
    } else {
        None
    }
}

impl TierRegistry {
    /// The host map of a registry holds tier rows only.
    #[verifier::type_invariant]
    spec fn rows_only(self) -> bool {
        tier_rows_only(self.rows)
    }

    /// A registry without tiers.
    pub fn new(e: &soroban_sdk::Env) -> (r: TierRegistry)
        ensures
            r@ == (Map::<u32, Tier>::empty()),
    {
        let r = TierRegistry { rows: tier_map_new(e) };
        assert(r@ =~= Map::<u32, Tier>::empty());
        r
    }

    /// The registry that a host map of tier rows holds.
    pub fn from_map(rows: TierMap) -> (r: TierRegistry)
        requires
            tier_rows_only(rows),
        ensures
            r@ == tier_table(rows),
    {
        TierRegistry { rows }
    }

    /// The host map that holds this registry.
    pub fn into_map(self) -> (rows: TierMap)
        ensures
            tier_table(rows) == self@,
            tier_rows_only(rows),
    {
        proof {
            use_type_invariant(&self);
        }
        self.rows
    }

    /// The tier defined under `id`, if there is one.
    pub fn get(&self, id: u32) -> (t: Option<Tier>)
        ensures
            t == lookup(self@, id),
    {
        proof {
            use_type_invariant(self);
        }
        match tier_map_get(&self.rows, id) {
            Some(row) => Some(Tier::from_row(row)),
            None => None,
        }
    }

    /// Defines `tier` under `id`, in place of what was defined there.
    pub fn set(&mut self, id: u32, tier: Tier)
        ensures
            final(self)@ == old(self)@.insert(id, tier),
    {
        proof {
            use_type_invariant(&*self);
        }
        self.rows = tier_map_with(&self.rows, id, tier.row());
        assert(self@ =~= old(self)@.insert(id, tier));
    }
}

impl UserLedger {
    /// The host map of a ledger holds participant rows only.
    #[verifier::type_invariant]
    spec fn rows_only(self) -> bool {
        user_rows_only(self.rows)
    }

    /// A ledger without records.
    pub fn new(e: &soroban_sdk::Env) -> (l: UserLedger)
        ensures
            l@ == (Map::<Principal, UserState>::empty()),
    {
        let l = UserLedger { rows: user_map_new(e) };
        assert(l@ =~= Map::<Principal, UserState>::empty());
        l
    }

    /// The ledger that a host map of participant rows holds.
    pub fn from_map(rows: UserMap) -> (l: UserLedger)
        requires
            user_rows_only(rows),
        ensures
            l@ == user_table(rows),
    {
        UserLedger { rows }
    }

    /// The host map that holds this ledger.
    pub fn into_map(self) -> (rows: UserMap)
        ensures
            user_table(rows) == self@,
            user_rows_only(rows),
    {
        proof {
            use_type_invariant(&self);
        }
        self.rows
    }

    /// The record of `who`, if there is one.
    pub fn get(&self, who: &soroban_sdk::Address) -> (s: Option<UserState>)
        ensures
            s == lookup(self@, address_key(*who)),
    {
        proof {
            use_type_invariant(self);
        }
        match user_map_get(&self.rows, who) {
            Some(row) => Some(UserState::from_row(row)),
            None => None,
        }
    }

    /// Writes `state` as the record of `who`, in place of what was there.
    pub fn set(&mut self, who: &soroban_sdk::Address, state: UserState)
        ensures
            final(self)@ == old(self)@.insert(address_key(*who), state),
    {
        proof {
            use_type_invariant(&*self);
        }
        self.rows = user_map_with(&self.rows, who, state.row());
        assert(self@ =~= old(self)@.insert(address_key(*who), state));
    }
}

} // verus!
