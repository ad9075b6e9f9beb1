//! The contract as mathematics: its stored state as four optional slots, and
//! each entry point as a function from the state before and the arguments to
//! the state after and the result.
//!
//! A call that is refused leaves the state as it was.

use vstd::prelude::*;

use crate::model::{DataKey, Error, Tier, UserState, DEFAULT_TIER_ID};
use crate::registry::{lookup, Principal};

verus! {

/// The stored state of the contract. A slot that was never written is `None`.
pub struct State {
    pub admin: Option<Principal>,
    pub token: Option<Principal>,
    pub tiers: Option<Map<u32, Tier>>,
    pub users: Option<Map<Principal, UserState>>,
}

impl State {
    /// The state before anything was written.
    pub open spec fn blank() -> State {
        State { admin: None, token: None, tiers: None, users: None }
    }

    /// Whether the slot `key` was written.
    pub open spec fn has(self, key: DataKey) -> bool {
        match key {
            DataKey::Admin => self.admin is Some,
            DataKey::Token => self.token is Some,
            DataKey::Tiers => self.tiers is Some,
            DataKey::Users => self.users is Some,
        }
    }

    /// Whether initialization has run: administrator and payment asset are set.
    pub open spec fn initialized(self) -> bool {
        self.admin is Some && self.token is Some
    }

    /// Whether the four slots were written together: all of them or none.
    /// The entry points keep it so.
    pub open spec fn coherent(self) -> bool {
        &&& (self.token is Some) == (self.admin is Some)
        &&& (self.tiers is Some) == (self.admin is Some)
        &&& (self.users is Some) == (self.admin is Some)
    }

    /// Whether every record is well formed. The entry points keep it so.
    pub open spec fn records_well_formed(self) -> bool {
        forall|who: Principal| #[trigger] self.record(who).spec_well_formed()
    }

    /// The tiers; none while the slot is unwritten.
    pub open spec fn tier_table(self) -> Map<u32, Tier> {
        match self.tiers {
            Some(t) => t,
            None => Map::empty(),
        }
    }

    /// The participant records; none while the slot is unwritten.
    pub open spec fn user_table(self) -> Map<Principal, UserState> {
        match self.users {
            Some(u) => u,
            None => Map::empty(),
        }
    }

    /// The tier defined under `id`, if there is one.
    pub open spec fn tier(self, id: u32) -> Option<Tier> {
        lookup(self.tier_table(), id)
    }

    /// The record of `who`, if one was written.
    pub open spec fn user(self, who: Principal) -> Option<UserState> {
        lookup(self.user_table(), who)
    }

    /// The record of `who`, or the blank record where none was written.
    pub open spec fn record(self, who: Principal) -> UserState {
        match self.user(who) {
            Some(s) => s,
            None => UserState::spec_blank(),
        }
    }

    /// This state with `tier` defined under `id`.
    pub open spec fn with_tier(self, id: u32, tier: Tier) -> State {
        State { tiers: Some(self.tier_table().insert(id, tier)), ..self }
    }

    /// This state with `s` as the record of `who`.
    pub open spec fn with_user(self, who: Principal, s: UserState) -> State {
        State { users: Some(self.user_table().insert(who, s)), ..self }
    }

    /// What every entry point but initialization asks first: that initialization has run.
    pub open spec fn ensure_initialized(self) -> Result<(), Error> {
        if self.initialized() {
            Ok(())
        } else {
            Err(Error::NotInitialized)
        }
    }

    /// The record and the tier with which `who` may claim at once or lock, or
    /// the reason why it may not: the contract is not initialized; `who` has no
    /// record or is not eligible; the record has already taken a path; its tier
    /// is not defined. The first that applies is the one reported.
    pub open spec fn entrant(self, who: Principal) -> Result<(UserState, Tier), Error> {
        if !self.initialized() {
            Err(Error::NotInitialized)
        } else if self.user(who) is None {
            Err(Error::NotEligible)
        } else if self.record(who).spec_entry_check() is Err {
            Err(self.record(who).spec_entry_check()->Err_0)
        } else if self.tier(self.record(who).tier_id) is None {
            Err(Error::TierNotFound)
        } else {
            Ok((self.record(who), self.tier(self.record(who).tier_id)->Some_0))
        }
    }

    /// The record and the tier with which `who` may withdraw, or the reason why
    /// it may not: the contract is not initialized; `who` has no record or is
    /// not eligible; it never locked; it was already paid; its tier is not
    /// defined. The first that applies is the one reported.
    pub open spec fn withdrawer(self, who: Principal) -> Result<(UserState, Tier), Error> {
        if !self.initialized() {
            Err(Error::NotInitialized)
        } else if self.user(who) is None {
            Err(Error::NotEligible)
        } else if self.record(who).spec_withdraw_check() is Err {
            Err(self.record(who).spec_withdraw_check()->Err_0)
        } else if self.tier(self.record(who).tier_id) is None {
            Err(Error::TierNotFound)
        } else {
            Ok((self.record(who), self.tier(self.record(who).tier_id)->Some_0))
        }
    }

    /// Initialization: refused once an administrator is set; otherwise it sets
    /// administrator and payment asset, defines the standard tier as the only
    /// tier and starts with no records.
    pub open spec fn init(self, admin: Principal, token: Principal) -> (State, Result<(), Error>) {
        if self.admin is Some {
            (self, Err(Error::AlreadyInitialized))
        } else {
            (
                State {
                    admin: Some(admin),
                    token: Some(token),
                    tiers: Some(Map::empty().insert(DEFAULT_TIER_ID, Tier::spec_standard())),
                    users: Some(Map::empty()),
                },
                Ok(()),
            )
        }
    }

    /// Defining a tier: inserts or replaces, with no check of the values.
    pub open spec fn admin_set_tier(self, id: u32, tier: Tier) -> (State, Result<(), Error>) {
        if !self.initialized() {
            (self, Err(Error::NotInitialized))
        } else {
            (self.with_tier(id, tier), Ok(()))
        }
    }

    /// Granting eligibility: refused where the tier is not defined; otherwise
    /// the record of `who`, blank if there was none, becomes eligible for the
    /// tier and keeps everything else.
    pub open spec fn admin_set_eligible(self, who: Principal, id: u32) -> (State, Result<(), Error>) {
        if !self.initialized() {
            (self, Err(Error::NotInitialized))
        } else if self.tier(id) is None {
            (self, Err(Error::TierNotFound))
        } else {
            (self.with_user(who, self.record(who).spec_granted(id)), Ok(()))
        }
    }

    /// Reading a record: the blank record for a participant without one.
    pub open spec fn get_user(self, who: Principal) -> Result<UserState, Error> {
        if !self.initialized() {
            Err(Error::NotInitialized)
        } else {
            Ok(self.record(who))
        }
    }

    /// Claiming at once: pays the tier's immediate amount and closes the record.
    pub open spec fn claim_now(self, who: Principal) -> (State, Result<i128, Error>) {
        match self.entrant(who) {
            Ok((s, tier)) => (self.with_user(who, s.spec_claimed()), Ok(tier.payout_now)),
            Err(e) => (self, Err(e)),
        }
    }

    /// Whether a lock that `who` takes at `now` has a maturity time that a
    /// timestamp can hold. It is so wherever the lock would be refused anyway.
    pub open spec fn lock_fits(self, who: Principal, now: u64) -> bool {
        self.entrant(who) matches Ok((_, tier)) ==> now + tier.lock_secs <= u64::MAX
    }

    /// Locking at `now`: records the lock and its maturity, `now` plus the
    /// tier's duration, and returns the maturity. Meant for `lock_fits`.
    pub open spec fn lock(self, who: Principal, now: u64) -> (State, Result<u64, Error>) {
        match self.entrant(who) {
            Ok((s, tier)) => {
                let unlock_at = (now + tier.lock_secs) as u64;
                (self.with_user(who, s.spec_locked_from(now, unlock_at)), Ok(unlock_at))
            },
            Err(e) => (self, Err(e)),
        }
    }

    /// Withdrawing at `now`: pays the early amount strictly before maturity and
    /// the mature amount from maturity on, and marks the record paid.
    pub open spec fn withdraw(self, who: Principal, now: u64) -> (State, Result<i128, Error>) {
        match self.withdrawer(who) {
            Ok((s, tier)) => (
                self.with_user(who, s.spec_paid_out()),
                Ok(tier.spec_payout_at(now, s.unlock_at)),
            ),
            Err(e) => (self, Err(e)),
        }
    }

    /// Resetting: refused unless `admin` is the administrator; otherwise the
    /// record of `who`, blank if there was none, is rewound.
    pub open spec fn admin_reset_user(self, admin: Principal, who: Principal) -> (State, Result<(), Error>) {
        if !self.initialized() {
            (self, Err(Error::NotInitialized))
        } else if self.admin != Some(admin) {
            (self, Err(Error::NotAdmin))
        } else {
            (self.with_user(who, self.record(who).spec_rewound()), Ok(()))
        }
    }
}

} // verus!
