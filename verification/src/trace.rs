//! Sequences of calls: what a run of entry points leaves, and how often it
//! pays a participant.

use vstd::prelude::*;

use crate::model::Tier;
use crate::registry::Principal;
use crate::state::State;

verus! {

/// One call of an entry point that may change the state, with its arguments.
pub enum Call {
    Init { admin: Principal, token: Principal },
    SetTier { id: u32, tier: Tier },
    SetEligible { who: Principal, id: u32 },
    ClaimNow { who: Principal },
    Lock { who: Principal, now: u64 },
    Withdraw { who: Principal, now: u64 },
    Reset { admin: Principal, who: Principal },
}

impl Call {
    /// Whether the call asks for a reset of the record of `who`.
    pub open spec fn rewinds(self, who: Principal) -> bool {
        self matches Call::Reset { who: w, .. } && w == who
    }
}

impl State {
    /// The state that a call leaves. A lock whose maturity time does not fit a
    /// timestamp leaves the state as it was.
    pub open spec fn after(self, call: Call) -> State {
        match call {
            Call::Init { admin, token } => self.init(admin, token).0,
            Call::SetTier { id, tier } => self.admin_set_tier(id, tier).0,
            Call::SetEligible { who, id } => self.admin_set_eligible(who, id).0,
            Call::ClaimNow { who } => self.claim_now(who).0,
            Call::Lock { who, now } => if self.lock_fits(who, now) {
                self.lock(who, now).0
            } else {
                self
            },
            Call::Withdraw { who, now } => self.withdraw(who, now).0,
            Call::Reset { admin, who } => self.admin_reset_user(admin, who).0,
        }
    }

    /// Whether a call pays `who`: it is a claim or a withdrawal by `who` and
    /// it succeeds.
    pub open spec fn pays(self, call: Call, who: Principal) -> bool {
        match call {
            Call::ClaimNow { who: w } => w == who && self.claim_now(w).1 is Ok,
            Call::Withdraw { who: w, now } => w == who && self.withdraw(w, now).1 is Ok,
            _ => false,
        }
    }

    /// The state that a run of calls leaves, made one after the other.
    pub open spec fn after_all(self, calls: Seq<Call>) -> State
        decreases calls.len(),
    {
        if calls.len() == 0 {
            self
        } else {
            self.after(calls.first()).after_all(calls.drop_first())
        }
    }

    /// How many calls of a run pay `who`.
    pub open spec fn payouts(self, calls: Seq<Call>, who: Principal) -> nat
        decreases calls.len(),
    {
        if calls.len() == 0 {
            0
        } else {
            let here: nat = if self.pays(calls.first(), who) {
                1
            } else {
                0
            };
            here + self.after(calls.first()).payouts(calls.drop_first(), who)
        }
    }
}

} // verus!
