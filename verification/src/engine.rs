//! The participant state machine: what a record must satisfy before each
//! transition, and the record that each transition leaves.

use vstd::prelude::*;

use crate::model::{Error, UserRow, UserState};

verus! {

/// Where a participant stands, as its record shows it.
#[derive(Clone, Copy, Debug, PartialEq, Eq, Structural)]
pub enum Phase {
    /// Not granted eligibility.
    NotEligible,
    /// Eligible, with no path taken yet.
    Eligible,
    /// Took the immediate payout. Final.
    ClaimedTerminal,
    /// Locked and not yet paid.
    Locked,
    /// Locked and paid. Final.
    WithdrawnTerminal,
}

impl UserState {
    /// The record of a participant that nothing has touched yet.
    pub open spec fn spec_blank() -> UserState {
        UserState {
            eligible: false,
            tier_id: 0,
            locked_at: 0,
            unlock_at: 0,
            claimed_now: false,
            locked: false,
            withdrawn: false,
        }
    }

    pub open spec fn spec_row(self) -> UserRow {
        (
            self.eligible,
            self.tier_id,
            self.locked_at,
            self.unlock_at,
            self.claimed_now,
            self.locked,
            self.withdrawn,
        )
    }

    pub open spec fn spec_from_row(row: UserRow) -> UserState {
        UserState {
            eligible: row.0,
            tier_id: row.1,
            locked_at: row.2,
            unlock_at: row.3,
            claimed_now: row.4,
            locked: row.5,
            withdrawn: row.6,
        }
    }

    /// Whether the record has already taken a path: it claimed at once, locked, or was paid.
    pub open spec fn spec_finalized(self) -> bool {
        self.claimed_now || self.locked || self.withdrawn
    }

    /// What holds of every record that the entry points write: a path is only
    /// taken by an eligible participant; the immediate payout excludes a lock
    /// and is paid at once; the timestamps are zero until a lock is taken, and
    /// a lock does not mature before it was taken.
    pub open spec fn spec_well_formed(self) -> bool {
        &&& self.spec_finalized() ==> self.eligible
        &&& self.claimed_now ==> self.withdrawn && !self.locked
        &&& self.withdrawn ==> self.claimed_now || self.locked
        &&& !self.locked ==> self.locked_at == 0 && self.unlock_at == 0
        &&& self.locked_at <= self.unlock_at
    }

    /// Where the participant stands.
    pub open spec fn spec_phase(self) -> Phase {
        if !self.eligible {
            Phase::NotEligible
        } else if self.claimed_now {
            Phase::ClaimedTerminal
        } else if self.withdrawn {
            Phase::WithdrawnTerminal
        } else if self.locked {
            Phase::Locked
        } else {
            Phase::Eligible
        }
    }

    /// Whether a record may claim at once or lock, and if not, why not.
    pub open spec fn spec_entry_check(self) -> Result<(), Error> {
        if !self.eligible {
            Err(Error::NotEligible)
        } else if self.spec_finalized() {
            Err(Error::AlreadyFinalized)
        } else {
            Ok(())
        }
    }

    /// Whether a record may withdraw, and if not, why not.
    pub open spec fn spec_withdraw_check(self) -> Result<(), Error> {
        if !self.eligible {
            Err(Error::NotEligible)
        } else if !self.locked {
            Err(Error::NotLocked)
        } else if self.withdrawn {
            Err(Error::AlreadyWithdrawn)
        } else {
            Ok(())
        }
    }

    /// The record after the administrator granted eligibility for `tier_id`.
    pub open spec fn spec_granted(self, tier_id: u32) -> UserState {
        UserState { eligible: true, tier_id, ..self }
    }

    /// The record after the immediate payout.
    pub open spec fn spec_claimed(self) -> UserState {
        UserState { claimed_now: true, withdrawn: true, ..self }
    }

    /// The record after a lock taken at `now` that matures at `unlock_at`.
    pub open spec fn spec_locked_from(self, now: u64, unlock_at: u64) -> UserState {
        UserState { locked: true, locked_at: now, unlock_at, ..self }
    }

    /// The record after the payout of a lock.
    pub open spec fn spec_paid_out(self) -> UserState {
        UserState { withdrawn: true, ..self }
    }

    /// The record after an administrative reset: eligible again, with no path
    /// taken and no timestamps; the tier assignment stays.
    pub open spec fn spec_rewound(self) -> UserState {
        UserState {
            eligible: true,
            claimed_now: false,
            withdrawn: false,
            locked: false,
            locked_at: 0,
            unlock_at: 0,
            ..self
        }
    }

    #[verifier::when_used_as_spec(spec_blank)]
    pub fn blank() -> (s: UserState)
        ensures
            s == UserState::spec_blank(),
    {
        UserState {
            eligible: false,
            tier_id: 0,
            locked_at: 0,
            unlock_at: 0,
            claimed_now: false,
            locked: false,
            withdrawn: false,
        }
    }

    #[verifier::when_used_as_spec(spec_row)]
    pub fn row(self) -> (row: UserRow)
        ensures
            row == self.spec_row(),
    {
        (
            self.eligible,
            self.tier_id,
            self.locked_at,
            self.unlock_at,
            self.claimed_now,
            self.locked,
            self.withdrawn,
        )
    }

    #[verifier::when_used_as_spec(spec_from_row)]
    pub fn from_row(row: UserRow) -> (s: UserState)
        ensures
            s == UserState::spec_from_row(row),
    {
        UserState {
            eligible: row.0,
            tier_id: row.1,
            locked_at: row.2,
            unlock_at: row.3,
            claimed_now: row.4,
            locked: row.5,
            withdrawn: row.6,
        }
    }

    #[verifier::when_used_as_spec(spec_finalized)]
    pub fn finalized(self) -> (f: bool)
        ensures
            f == self.spec_finalized(),
    {
        self.claimed_now || self.locked || self.withdrawn
    }

    #[verifier::when_used_as_spec(spec_well_formed)]
    pub fn well_formed(self) -> (ok: bool)
        ensures
            ok == self.spec_well_formed(),
    {
        (!(self.claimed_now || self.locked || self.withdrawn) || self.eligible)
            && (!self.claimed_now || (self.withdrawn && !self.locked))
            && (!self.withdrawn || self.claimed_now || self.locked)
            && (self.locked || (self.locked_at == 0 && self.unlock_at == 0))
            && self.locked_at <= self.unlock_at
    }

    #[verifier::when_used_as_spec(spec_phase)]
    pub fn phase(self) -> (p: Phase)
        ensures
            p == self.spec_phase(),
    {
        if !self.eligible {
            Phase::NotEligible
        } else if self.claimed_now {
            Phase::ClaimedTerminal
        } else if self.withdrawn {
            Phase::WithdrawnTerminal
        } else if self.locked {
            Phase::Locked
        } else {
            Phase::Eligible
        }
    }

    #[verifier::when_used_as_spec(spec_entry_check)]
    pub fn entry_check(self) -> (r: Result<(), Error>)
        ensures
            r == self.spec_entry_check(),
    {
        if !self.eligible {
            return Err(Error::NotEligible);
        }
        if self.claimed_now || self.locked || self.withdrawn {
            return Err(Error::AlreadyFinalized);
        }
        Ok(())
    }

    #[verifier::when_used_as_spec(spec_withdraw_check)]
    pub fn withdraw_check(self) -> (r: Result<(), Error>)
        ensures
            r == self.spec_withdraw_check(),
    {
        if !self.eligible {
            return Err(Error::NotEligible);
        }
        if !self.locked {
            return Err(Error::NotLocked);
        }
        if self.withdrawn {
            return Err(Error::AlreadyWithdrawn);
        }
        Ok(())
    }

    #[verifier::when_used_as_spec(spec_granted)]
    pub fn granted(self, tier_id: u32) -> (s: UserState)
        ensures
            s == self.spec_granted(tier_id),
    {
        let mut s = self;
        s.eligible = true;
        s.tier_id = tier_id;
        s
    }

    #[verifier::when_used_as_spec(spec_claimed)]
    pub fn claimed(self) -> (s: UserState)
        ensures
            s == self.spec_claimed(),
    {
        let mut s = self;
        s.claimed_now = true;
        s.withdrawn = true;
        s
    }

    #[verifier::when_used_as_spec(spec_locked_from)]
    pub fn locked_from(self, now: u64, unlock_at: u64) -> (s: UserState)
        ensures
            s == self.spec_locked_from(now, unlock_at),
    {
        let mut s = self;
        s.locked = true;
        s.locked_at = now;
        s.unlock_at = unlock_at;
        s
    }

    #[verifier::when_used_as_spec(spec_paid_out)]
    pub fn paid_out(self) -> (s: UserState)
        ensures
            s == self.spec_paid_out(),
    {
        let mut s = self;
        s.withdrawn = true;
        s
    }

    #[verifier::when_used_as_spec(spec_rewound)]
    pub fn rewound(self) -> (s: UserState)
        ensures
            s == self.spec_rewound(),
    {
        let mut s = self;
        s.eligible = true;
        s.claimed_now = false;
        s.withdrawn = false;
        s.locked = false;
        s.locked_at = 0;
        s.unlock_at = 0;
        s
    }
}

/// The record that a participant has before anything touched it.
pub fn default_user() -> (s: UserState)
    ensures
        s == UserState::spec_blank(),
{
    UserState::blank()
}

} // verus!
