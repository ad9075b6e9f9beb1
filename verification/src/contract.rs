//! The contract: its stored state held in memory, and its entry points.
//!
//! A `Commitment` holds the four slots of the contract's state. Each entry
//! point checks, then changes the state and returns what the call yields, as
//! `State` defines it; a refused call changes nothing. Authorizing the caller,
//! reading the ledger's time, moving the payout, publishing events and keeping
//! the slots in the host's storage are the work of whoever drives the
//! contract: the host aborts the invocation where one of them fails, and a
//! function here never does.
//!
//! The addresses that a `Commitment` is given may come from any `Env`: a
//! participant is known by what its address names, not by the handle.

use vstd::prelude::*;

use crate::host::{
    address_key, same_address, tier_rows_only, user_rows_only, TierMap, UserMap,
};
use crate::engine::default_user;
use crate::model::{DataKey, Error, Tier, UserState, DEFAULT_TIER_ID};
use crate::registry::{tier_table, user_table, Principal, TierRegistry, UserLedger};
use crate::state::State;

verus! {

/// The contract's stored state.
pub struct Commitment {
    admin: Option<soroban_sdk::Address>,
    token: Option<soroban_sdk::Address>,
    tiers: Option<TierRegistry>,
    users: Option<UserLedger>,
}

/// The state that four slots, as the host's storage keeps them, stand for.
pub open spec fn slots_state(
    admin: Option<soroban_sdk::Address>,
    token: Option<soroban_sdk::Address>,
    tiers: Option<TierMap>,
    users: Option<UserMap>,
) -> State {
    State {
        admin: match admin {
            Some(a) => Some(address_key(a)),
            None => None,
        },
        token: match token {
            Some(a) => Some(address_key(a)),
            None => None,
        },
        tiers: match tiers {
            Some(m) => Some(tier_table(m)),
            None => None,
        },
        users: match users {
            Some(m) => Some(user_table(m)),
            None => None,
        },
    }
}

impl View for Commitment {
    type V = State;

    closed spec fn view(&self) -> State {
        State {
            admin: match self.admin {
                Some(a) => Some(address_key(a)),
                None => None,
            },
            token: match self.token {
                Some(a) => Some(address_key(a)),
                None => None,
            },
            tiers: match self.tiers {
                Some(t) => Some(t@),
                None => None,
            },
            users: match self.users {
                Some(u) => Some(u@),
                None => None,
            },
        }
    }
}

impl Commitment {
    /// The contract before anything was written.
    pub fn new() -> (c: Commitment)
        ensures
            c@ == State::blank(),
    {
        Commitment { admin: None, token: None, tiers: None, users: None }
    }

    /// The contract whose slots hold the given values. The two maps hold
    /// rows only, as those do that `into_slots` gave.
    pub fn from_slots(
        admin: Option<soroban_sdk::Address>,
        token: Option<soroban_sdk::Address>,
        tiers: Option<TierMap>,
        users: Option<UserMap>,
    ) -> (c: Commitment)
        requires
            tiers matches Some(m) ==> tier_rows_only(m),
            users matches Some(m) ==> user_rows_only(m),
        ensures
            c@ == slots_state(admin, token, tiers, users),
    {
        let tiers = match tiers {
            Some(m) => Some(TierRegistry::from_map(m)),
            None => None,
        };
        let users = match users {
            Some(m) => Some(UserLedger::from_map(m)),
            None => None,
        };
        Commitment { admin, token, tiers, users }
    }

    /// The values of the four slots: administrator, payment asset, tiers, records.
    pub fn into_slots(self) -> (slots: (
        Option<soroban_sdk::Address>,
        Option<soroban_sdk::Address>,
        Option<TierMap>,
        Option<UserMap>,
    ))
        ensures
            slots_state(slots.0, slots.1, slots.2, slots.3) == self@,
            slots.2 matches Some(m) ==> tier_rows_only(m),
            slots.3 matches Some(m) ==> user_rows_only(m),
    {
        let tiers = match self.tiers {
            Some(t) => Some(t.into_map()),
            None => None,
        };
        let users = match self.users {
            Some(u) => Some(u.into_map()),
            None => None,
        };
        (self.admin, self.token, tiers, users)
    }

    /// Whether the slot `key` was written.
    pub fn has(&self, key: DataKey) -> (b: bool)
        ensures
            b == self@.has(key),
    {
        match key {
            DataKey::Admin => self.admin.is_some(),
            DataKey::Token => self.token.is_some(),
            DataKey::Tiers => self.tiers.is_some(),
            DataKey::Users => self.users.is_some(),
        }
    }

    /// Passes once initialization has run.
    pub fn ensure_initialized(&self) -> (r: Result<(), Error>)
        ensures
            r == self@.ensure_initialized(),
    {
        if self.has(DataKey::Admin) && self.has(DataKey::Token) {
            Ok(())
        } else {
            Err(Error::NotInitialized)
        }
    }

    /// The administrator.
    pub fn get_admin(&self) -> (a: &soroban_sdk::Address)
        requires
            self@.admin is Some,
        ensures
            self@.admin == Some(address_key(*a)),
    {
        self.admin.as_ref().unwrap()
    }

    /// The payment asset.
    pub fn get_token(&self) -> (a: &soroban_sdk::Address)
        requires
            self@.token is Some,
        ensures
            self@.token == Some(address_key(*a)),
    {
        self.token.as_ref().unwrap()
    }

    /// Takes the tiers out of their slot; a fresh registry where the slot was
    /// never written.
    fn get_tiers(&mut self, e: &soroban_sdk::Env) -> (tiers: TierRegistry)
        ensures
            tiers@ == old(self)@.tier_table(),
            final(self)@ == (State { tiers: None, ..old(self)@ }),
    {
        match self.tiers.take() {
            Some(t) => t,
            None => TierRegistry::new(e),
        }
    }

    /// Writes the tiers slot.
    fn set_tiers(&mut self, tiers: TierRegistry)
        ensures
            final(self)@ == (State { tiers: Some(tiers@), ..old(self)@ }),
    {
        self.tiers = Some(tiers);
    }

    /// Takes the records out of their slot; a fresh ledger where the slot was
    /// never written.
    fn get_users(&mut self, e: &soroban_sdk::Env) -> (users: UserLedger)
        ensures
            users@ == old(self)@.user_table(),
            final(self)@ == (State { users: None, ..old(self)@ }),
    {
        match self.users.take() {
            Some(u) => u,
            None => UserLedger::new(e),
        }
    }

    /// Writes the records slot.
    fn set_users(&mut self, users: UserLedger)
        ensures
            final(self)@ == (State { users: Some(users@), ..old(self)@ }),
    {
        self.users = Some(users);
    }

    /// The tier defined under `id`, if there is one.
    pub fn tier(&self, id: u32) -> (t: Option<Tier>)
        ensures
            t == self@.tier(id),
    {
        match &self.tiers {
            Some(tiers) => tiers.get(id),
            None => None,
        }
    }

    /// The record of `who`, if one was written.
    pub fn user(&self, who: &soroban_sdk::Address) -> (s: Option<UserState>)
        ensures
            s == self@.user(address_key(*who)),
    {
        match &self.users {
            Some(users) => users.get(who),
            None => None,
        }
    }

    /// The record and tier with which `user` may claim at once or lock, or the
    /// reason why it may not.
    pub fn entrant(&self, user: &soroban_sdk::Address) -> (r: Result<(UserState, Tier), Error>)
        ensures
            r == self@.entrant(address_key(*user)),
    {
        if let Err(e) = self.ensure_initialized() {
            return Err(e);
        }
        let s = match self.user(user) {
            Some(s) => s,
            None => return Err(Error::NotEligible),
        };
        if let Err(e) = s.entry_check() {
            return Err(e);
        }
        match self.tier(s.tier_id) {
            Some(tier) => Ok((s, tier)),
            None => Err(Error::TierNotFound),
        }
    }

    /// The record and tier with which `user` may withdraw, or the reason why it
    /// may not.
    pub fn withdrawer(&self, user: &soroban_sdk::Address) -> (r: Result<(UserState, Tier), Error>)
        ensures
            r == self@.withdrawer(address_key(*user)),
    {
        if let Err(e) = self.ensure_initialized() {
            return Err(e);
        }
        let s = match self.user(user) {
            Some(s) => s,
            None => return Err(Error::NotEligible),
        };
        if let Err(e) = s.withdraw_check() {
            return Err(e);
        }
        match self.tier(s.tier_id) {
            Some(tier) => Ok((s, tier)),
            None => Err(Error::TierNotFound),
        }
    }

    /// Initializes the contract, once: sets administrator and payment asset,
    /// defines the standard tier and starts with no records.
    pub fn init(
        &mut self,
        e: &soroban_sdk::Env,
        admin: soroban_sdk::Address,
        token_addr: soroban_sdk::Address,
    ) -> (r: Result<(), Error>)
        ensures
            (final(self)@, r) == old(self)@.init(address_key(admin), address_key(token_addr)),
    {
        if self.has(DataKey::Admin) {
            return Err(Error::AlreadyInitialized);
        }
        self.admin = Some(admin);
        self.token = Some(token_addr);
        let mut tiers = TierRegistry::new(e);
        tiers.set(DEFAULT_TIER_ID, Tier::standard());
        self.set_tiers(tiers);
        self.set_users(UserLedger::new(e));
        Ok(())
    }

    /// Defines or replaces a tier. For the administrator.
    pub fn admin_set_tier(
        &mut self,
        e: &soroban_sdk::Env,
        tier_id: u32,
        tier: Tier,
    ) -> (r: Result<(), Error>)
        ensures
            (final(self)@, r) == old(self)@.admin_set_tier(tier_id, tier),
    {
        if let Err(err) = self.ensure_initialized() {
            return Err(err);
        }
        let mut tiers = self.get_tiers(e);
        tiers.set(tier_id, tier);
        self.set_tiers(tiers);
        Ok(())
    }

    /// Makes `user` eligible for the tier `tier_id`. For the administrator.
    pub fn admin_set_eligible(
        &mut self,
        e: &soroban_sdk::Env,
        user: &soroban_sdk::Address,
        tier_id: u32,
    ) -> (r: Result<(), Error>)
        ensures
            (final(self)@, r) == old(self)@.admin_set_eligible(address_key(*user), tier_id),
    {
        if let Err(err) = self.ensure_initialized() {
            return Err(err);
        }
        if self.tier(tier_id).is_none() {
            return Err(Error::TierNotFound);
        }
        let mut users = self.get_users(e);
        let state = match users.get(user) {
            Some(s) => s.granted(tier_id),
            None => default_user().granted(tier_id),
        };
        users.set(user, state);
        self.set_users(users);
        Ok(())
    }

    /// The record of `user`; the blank record where it has none.
    pub fn get_user(&self, user: &soroban_sdk::Address) -> (r: Result<UserState, Error>)
        ensures
            r == self@.get_user(address_key(*user)),
    {
        if let Err(err) = self.ensure_initialized() {
            return Err(err);
        }
        match self.user(user) {
            Some(s) => Ok(s),
            None => Ok(default_user()),
        }
    }

    /// `user` takes the immediate payout. Returns the amount to pay.
    pub fn claim_now(
        &mut self,
        e: &soroban_sdk::Env,
        user: &soroban_sdk::Address,
    ) -> (r: Result<i128, Error>)
        ensures
            (final(self)@, r) == old(self)@.claim_now(address_key(*user)),
    {
        let (s, tier) = match self.entrant(user) {
            Ok(found) => found,
            Err(err) => return Err(err),
        };
        let mut users = self.get_users(e);
        users.set(user, s.claimed());
        self.set_users(users);
        Ok(tier.payout_now)
    }

    /// `user` locks at the time `now`, which is the time of the ledger.
    /// Returns the maturity time, or `None`, with nothing changed, where that
    /// time is more than a timestamp can hold.
    pub fn lock(
        &mut self,
        e: &soroban_sdk::Env,
        user: &soroban_sdk::Address,
        now: u64,
    ) -> (r: Option<Result<u64, Error>>)
        ensures
            locked_as(old(self)@, address_key(*user), now, final(self)@, r),
    {
        let (s, tier) = match self.entrant(user) {
            Ok(found) => found,
            Err(err) => return Some(Err(err)),
        };
        let unlock_at = match now.checked_add(tier.lock_secs) {
            Some(t) => t,
            None => return None,
        };
        let mut users = self.get_users(e);
        users.set(user, s.locked_from(now, unlock_at));
        self.set_users(users);
        Some(Ok(unlock_at))
    }

    /// `user` withdraws at the time `now`, which is the time of the ledger.
    /// Returns the amount to pay.
    pub fn withdraw(
        &mut self,
        e: &soroban_sdk::Env,
        user: &soroban_sdk::Address,
        now: u64,
    ) -> (r: Result<i128, Error>)
        ensures
            (final(self)@, r) == old(self)@.withdraw(address_key(*user), now),
    {
        let (s, tier) = match self.withdrawer(user) {
            Ok(found) => found,
            Err(err) => return Err(err),
        };
        let payout = tier.payout_at(now, s.unlock_at);
        let mut users = self.get_users(e);
        users.set(user, s.paid_out());
        self.set_users(users);
        Ok(payout)
    }

    /// Rewinds the record of `user`. For the administrator, who is `admin`.
    pub fn admin_reset_user(
        &mut self,
        e: &soroban_sdk::Env,
        admin: &soroban_sdk::Address,
        user: &soroban_sdk::Address,
    ) -> (r: Result<(), Error>)
        ensures
            (final(self)@, r) == old(self)@.admin_reset_user(
                address_key(*admin),
                address_key(*user),
            ),
    {
        if let Err(err) = self.ensure_initialized() {
            return Err(err);
        }
        if !same_address(admin, self.get_admin()) {
            return Err(Error::NotAdmin);
        }
        let mut users = self.get_users(e);
        let state = match users.get(user) {
            Some(s) => s.rewound(),
            None => default_user().rewound(),
        };
        users.set(user, state);
        self.set_users(users);
        Ok(())
    }
}

/// What a lock taken at `now` comes to: where the maturity time fits a
/// timestamp, the state and result that `State::lock` gives; where it does
/// not, no result and the state unchanged.
pub open spec fn locked_as(
    before: State,
    who: Principal,
    now: u64,
    after: State,
    r: Option<Result<u64, Error>>,
) -> bool {
    if before.lock_fits(who, now) {
        r is Some && (after, r->Some_0) == before.lock(who, now)
    } else {
        r is None && after == before
    }
}

} // verus!
