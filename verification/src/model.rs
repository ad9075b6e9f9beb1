//! The data model: payout tiers, per-participant records, storage slots and errors.

use vstd::prelude::*;

verus! {

/// Lock duration of the tier that initialization seeds: ninety days, in seconds.
pub const DEFAULT_LOCK_SECS: u64 = 7_776_000;

/// Immediate payout of the seeded tier, in the smallest unit of a 7-decimal asset.
pub const DEFAULT_PAYOUT_NOW: i128 = 200_000_000;

/// Early-withdrawal payout of the seeded tier.
pub const DEFAULT_PAYOUT_EARLY: i128 = 150_000_000;

/// Mature-withdrawal payout of the seeded tier.
pub const DEFAULT_PAYOUT_MATURE: i128 = 350_000_000;

/// Identifier under which initialization seeds the default tier.
pub const DEFAULT_TIER_ID: u32 = 1;

/// A payout policy: how long a lock must be held and what each exit pays.
///
/// The amounts are policy set by the administrator; nothing here validates them.
#[derive(Clone, Copy, Debug, PartialEq, Eq, Structural)]
pub struct Tier {
    pub lock_secs: u64,
    pub payout_now: i128,
    pub payout_early: i128,
    pub payout_mature: i128,
}

/// The form in which a tier is kept in a host map.
pub type TierRow = (u64, i128, i128, i128);

/// The form in which a participant record is kept in a host map.
pub type UserRow = (bool, u32, u64, u64, bool, bool, bool);

/// The state of one participant.
#[derive(Clone, Copy, Debug, PartialEq, Eq, Structural)]
pub struct UserState {
    pub eligible: bool,
    pub tier_id: u32,
    pub locked_at: u64,
    pub unlock_at: u64,
    pub claimed_now: bool,
    pub locked: bool,
    pub withdrawn: bool,
}

/// The four slots of the contract's stored state.
#[derive(Clone, Copy, Debug, PartialEq, Eq, Structural)]
pub enum DataKey {
    Admin,
    Token,
    Tiers,
    Users,
}

/// Why an entry point refused a call.
#[derive(Clone, Copy, Debug, PartialEq, Eq, Structural)]
pub enum Error {
    NotAdmin,
    NotEligible,
    AlreadyFinalized,
    NotLocked,
    AlreadyWithdrawn,
    TierNotFound,
    NotInitialized,
    AlreadyInitialized,
}

impl Tier {
    /// The tier that initialization seeds under `DEFAULT_TIER_ID`.
    pub open spec fn spec_standard() -> Tier {
        Tier {
            lock_secs: DEFAULT_LOCK_SECS,
            payout_now: DEFAULT_PAYOUT_NOW,
            payout_early: DEFAULT_PAYOUT_EARLY,
            payout_mature: DEFAULT_PAYOUT_MATURE,
        }
    }

    pub open spec fn spec_row(self) -> TierRow {
        (self.lock_secs, self.payout_now, self.payout_early, self.payout_mature)
    }

    pub open spec fn spec_from_row(row: TierRow) -> Tier {
        Tier { lock_secs: row.0, payout_now: row.1, payout_early: row.2, payout_mature: row.3 }
    }

    /// What a withdrawal at time `now` pays when the lock matures at `unlock_at`:
    /// the early amount strictly before maturity, the mature amount from then on.
    pub open spec fn spec_payout_at(self, now: u64, unlock_at: u64) -> i128 {
        if now < unlock_at {
            self.payout_early
        } else {
            self.payout_mature
        }
    }

    #[verifier::when_used_as_spec(spec_standard)]
    pub fn standard() -> (t: Tier)
        ensures
            t == Tier::spec_standard(),
    {
        Tier {
            lock_secs: DEFAULT_LOCK_SECS,
            payout_now: DEFAULT_PAYOUT_NOW,
            payout_early: DEFAULT_PAYOUT_EARLY,
            payout_mature: DEFAULT_PAYOUT_MATURE,
        }
    }

    #[verifier::when_used_as_spec(spec_row)]
    pub fn row(self) -> (row: TierRow)
        ensures
            row == self.spec_row(),
    {
        (self.lock_secs, self.payout_now, self.payout_early, self.payout_mature)
    }

    #[verifier::when_used_as_spec(spec_from_row)]
    pub fn from_row(row: TierRow) -> (t: Tier)
        ensures
            t == Tier::spec_from_row(row),
    {
        Tier { lock_secs: row.0, payout_now: row.1, payout_early: row.2, payout_mature: row.3 }
    }

    #[verifier::when_used_as_spec(spec_payout_at)]
    pub fn payout_at(self, now: u64, unlock_at: u64) -> (amount: i128)
        ensures
            amount == self.spec_payout_at(now, unlock_at),
    {
        if now < unlock_at {
            self.payout_early
        } else {
            self.payout_mature
        }
    }
}

} // verus!
