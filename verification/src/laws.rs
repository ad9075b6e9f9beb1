//! What holds of the contract across calls, proved of the state functions that
//! the entry points are held to.

use vstd::prelude::*;

use crate::engine::Phase;
use crate::model::{Error, Tier, UserState, DEFAULT_TIER_ID};
use crate::registry::Principal;
use crate::state::State;
use crate::trace::Call;

verus! {

/// Initialization works exactly once: on a contract that nothing was written
/// to it succeeds and leaves the contract initialized, and whatever the state
/// and whether or not a first call succeeded, a second call is refused with
/// `AlreadyInitialized` and changes nothing.
pub proof fn law_init_once(
    s: State,
    admin: Principal,
    token: Principal,
    admin2: Principal,
    token2: Principal,
)
    ensures
        State::blank().init(admin, token).1 == Ok::<(), Error>(()),
        State::blank().init(admin, token).0.initialized(),
        s.init(admin, token).0.init(admin2, token2).1 == Err::<(), Error>(
            Error::AlreadyInitialized,
        ),
        s.init(admin, token).0.init(admin2, token2).0 == s.init(admin, token).0,
{
}

/// Before initialization has run, every entry point but initialization is
/// refused with `NotInitialized` and changes nothing.
pub proof fn law_nothing_before_init(
    s: State,
    who: Principal,
    admin: Principal,
    id: u32,
    tier: Tier,
    now: u64,
)
    requires
        !s.initialized(),
    ensures
        s.admin_set_tier(id, tier) == (s, Err::<(), Error>(Error::NotInitialized)),
        s.admin_set_eligible(who, id) == (s, Err::<(), Error>(Error::NotInitialized)),
        s.get_user(who) == Err::<UserState, Error>(Error::NotInitialized),
        s.claim_now(who) == (s, Err::<i128, Error>(Error::NotInitialized)),
        s.lock_fits(who, now),
        s.lock(who, now) == (s, Err::<u64, Error>(Error::NotInitialized)),
        s.withdraw(who, now) == (s, Err::<i128, Error>(Error::NotInitialized)),
        s.admin_reset_user(admin, who) == (s, Err::<(), Error>(Error::NotInitialized)),
{
}

/// A call that is refused leaves the state as it was.
pub proof fn law_refused_changes_nothing(
    s: State,
    who: Principal,
    admin: Principal,
    token: Principal,
    id: u32,
    tier: Tier,
    now: u64,
)
    ensures
        s.init(admin, token).1 is Err ==> s.init(admin, token).0 == s,
        s.admin_set_tier(id, tier).1 is Err ==> s.admin_set_tier(id, tier).0 == s,
        s.admin_set_eligible(who, id).1 is Err ==> s.admin_set_eligible(who, id).0 == s,
        s.claim_now(who).1 is Err ==> s.claim_now(who).0 == s,
        s.lock(who, now).1 is Err ==> s.lock(who, now).0 == s,
        s.withdraw(who, now).1 is Err ==> s.withdraw(who, now).0 == s,
        s.admin_reset_user(admin, who).1 is Err ==> s.admin_reset_user(admin, who).0 == s,
{
}

/// Once the contract is initialized, reading a participant never fails, and
/// for one without a record it gives the blank record. Right after
/// initialization that is every participant.
pub proof fn law_unknown_user_is_blank(
    s: State,
    who: Principal,
    admin: Principal,
    token: Principal,
)
    ensures
        s.initialized() ==> s.get_user(who) is Ok,
        s.initialized() && s.user(who) is None ==> s.get_user(who) == Ok::<UserState, Error>(
            UserState::spec_blank(),
        ),
        State::blank().init(admin, token).0.get_user(who) == Ok::<UserState, Error>(
            UserState::spec_blank(),
        ),
{
}

/// Initialization defines the standard tier under its identifier, and only it.
pub proof fn law_init_seeds_standard_tier(admin: Principal, token: Principal, id: u32)
    ensures
        State::blank().init(admin, token).0.tier(DEFAULT_TIER_ID) == Some(Tier::spec_standard()),
        id != DEFAULT_TIER_ID ==> State::blank().init(admin, token).0.tier(id) is None,
        Tier::spec_standard().lock_secs == 7_776_000,
        Tier::spec_standard().payout_now == 200_000_000,
        Tier::spec_standard().payout_early == 150_000_000,
        Tier::spec_standard().payout_mature == 350_000_000,
{
}

/// A participant whose record has taken no path yet and who is granted the
/// standard tier can claim at once exactly one time: the first claim pays
/// 200,000,000, the second is refused with `AlreadyFinalized`.
pub proof fn law_claim_once(s: State, who: Principal)
    requires
        s.initialized(),
        s.tier(DEFAULT_TIER_ID) == Some(Tier::spec_standard()),
        !s.record(who).spec_finalized(),
    ensures
        ({
            let granted = s.admin_set_eligible(who, DEFAULT_TIER_ID);
            let first = granted.0.claim_now(who);
            let second = first.0.claim_now(who);
            &&& granted.1 is Ok
            &&& first.1 == Ok::<i128, Error>(200_000_000)
            &&& second.1 == Err::<i128, Error>(Error::AlreadyFinalized)
            &&& second.0 == first.0
        }),
{
    let granted = s.admin_set_eligible(who, DEFAULT_TIER_ID);
    assert(granted.0.user(who) == Some(s.record(who).spec_granted(DEFAULT_TIER_ID)));
    let first = granted.0.claim_now(who);
    assert(first.0.user(who) == Some(s.record(who).spec_granted(DEFAULT_TIER_ID).spec_claimed()));
}

/// A participant whose record has taken no path yet, who is granted the
/// standard tier and locks at time `t`: the lock matures at `t` + 7,776,000; a
/// withdrawal strictly before that pays 150,000,000 and one at that time or
/// later pays 350,000,000.
pub proof fn law_lock_then_withdraw(s: State, who: Principal, t: u64, now: u64)
    requires
        s.initialized(),
        s.tier(DEFAULT_TIER_ID) == Some(Tier::spec_standard()),
        !s.record(who).spec_finalized(),
        t + 7_776_000 <= u64::MAX,
    ensures
        ({
            let granted = s.admin_set_eligible(who, DEFAULT_TIER_ID);
            let locked = granted.0.lock(who, t);
            let paid = locked.0.withdraw(who, now);
            &&& granted.0.lock_fits(who, t)
            &&& locked.1 == Ok::<u64, Error>((t + 7_776_000) as u64)
            &&& locked.0.record(who).unlock_at == t + 7_776_000
            &&& locked.0.record(who).locked_at == t
            &&& now < t + 7_776_000 ==> paid.1 == Ok::<i128, Error>(150_000_000)
            &&& now >= t + 7_776_000 ==> paid.1 == Ok::<i128, Error>(350_000_000)
        }),
{
    let granted = s.admin_set_eligible(who, DEFAULT_TIER_ID);
    assert(granted.0.user(who) == Some(s.record(who).spec_granted(DEFAULT_TIER_ID)));
    let locked = granted.0.lock(who, t);
    let unlock_at = (t + 7_776_000) as u64;
    assert(locked.0.user(who) == Some(
        s.record(who).spec_granted(DEFAULT_TIER_ID).spec_locked_from(t, unlock_at),
    ));
}

/// Whatever the tier, a lock matures at the time it was taken plus the tier's
/// duration, and the withdrawal that follows pays the tier's early amount
/// strictly before maturity and its mature amount from maturity on.
pub proof fn law_maturity_boundary(s: State, who: Principal, t: u64, now: u64)
    requires
        s.lock_fits(who, t),
        s.lock(who, t).1 is Ok,
    ensures
        ({
            let tier = s.entrant(who)->Ok_0.1;
            let locked = s.lock(who, t);
            let paid = locked.0.withdraw(who, now);
            &&& locked.1 == Ok::<u64, Error>((t + tier.lock_secs) as u64)
            &&& paid.1 == Ok::<i128, Error>(
                if now < t + tier.lock_secs {
                    tier.payout_early
                } else {
                    tier.payout_mature
                },
            )
        }),
{
    let (rec, tier) = s.entrant(who)->Ok_0;
    let unlock_at = (t + tier.lock_secs) as u64;
    let locked = s.lock(who, t);
    assert(locked.0.user(who) == Some(rec.spec_locked_from(t, unlock_at)));
    assert(locked.0.tier(rec.tier_id) == Some(tier));
}

/// An eligible participant that never locked cannot withdraw: the call is
/// refused with `NotLocked`.
pub proof fn law_withdraw_needs_lock(s: State, who: Principal, now: u64)
    requires
        s.initialized(),
        s.user(who) is Some,
        s.record(who).eligible,
        !s.record(who).locked,
    ensures
        s.withdraw(who, now) == (s, Err::<i128, Error>(Error::NotLocked)),
{
}

/// After a withdrawal that paid, every further withdrawal by the same
/// participant is refused with `AlreadyWithdrawn`, whatever the time.
pub proof fn law_withdraw_once(s: State, who: Principal, now: u64, later: u64)
    requires
        s.withdraw(who, now).1 is Ok,
    ensures
        s.withdraw(who, now).0.withdraw(who, later) == (
            s.withdraw(who, now).0,
            Err::<i128, Error>(Error::AlreadyWithdrawn),
        ),
{
    let rec = s.withdrawer(who)->Ok_0.0;
    assert(s.withdraw(who, now).0.user(who) == Some(rec.spec_paid_out()));
}

/// Granting eligibility for a tier that is not defined is refused with
/// `TierNotFound` and changes nothing, the participant's record included.
pub proof fn law_grant_needs_tier(s: State, who: Principal, id: u32)
    requires
        s.initialized(),
        s.tier(id) is None,
    ensures
        s.admin_set_eligible(who, id) == (s, Err::<(), Error>(Error::TierNotFound)),
        s.admin_set_eligible(who, id).0.user(who) == s.user(who),
{
}

/// A payout closes the record: after a claim or a withdrawal that paid, the
/// participant's record is marked paid.
pub proof fn law_payout_marks_paid(s: State, who: Principal, now: u64)
    ensures
        s.claim_now(who).1 is Ok ==> s.claim_now(who).0.record(who).withdrawn,
        s.withdraw(who, now).1 is Ok ==> s.withdraw(who, now).0.record(who).withdrawn,
{
    if s.claim_now(who).1 is Ok {
        let rec = s.entrant(who)->Ok_0.0;
        assert(s.claim_now(who).0.user(who) == Some(rec.spec_claimed()));
    }
    if s.withdraw(who, now).1 is Ok {
        let rec = s.withdrawer(who)->Ok_0.0;
        assert(s.withdraw(who, now).0.user(who) == Some(rec.spec_paid_out()));
    }
}

/// A record that is marked paid pays nothing more: claiming, locking and
/// withdrawing are all refused.
pub proof fn law_paid_is_final(s: State, who: Principal, now: u64)
    requires
        s.record(who).withdrawn,
    ensures
        s.claim_now(who).1 is Err,
        s.lock(who, now).1 is Err,
        s.withdraw(who, now).1 is Err,
{
}

/// The entry points keep the slots together: from a state in which all four
/// are written or none is, each one leads to such a state, and the state that
/// nothing was written to is one.
pub proof fn law_slots_stay_together(
    s: State,
    who: Principal,
    admin: Principal,
    token: Principal,
    id: u32,
    tier: Tier,
    now: u64,
)
    requires
        s.coherent(),
    ensures
        State::blank().coherent(),
        s.init(admin, token).0.coherent(),
        s.admin_set_tier(id, tier).0.coherent(),
        s.admin_set_eligible(who, id).0.coherent(),
        s.claim_now(who).0.coherent(),
        s.lock(who, now).0.coherent(),
        s.withdraw(who, now).0.coherent(),
        s.admin_reset_user(admin, who).0.coherent(),
{
}

/// What a well-formed record may do follows from where it stands: it may
/// claim at once or lock exactly when it is `Eligible`, and withdraw exactly
/// when it is `Locked`; otherwise the refusal names the reason.
pub proof fn law_phase_decides(rec: UserState)
    requires
        rec.spec_well_formed(),
    ensures
        rec.spec_entry_check() is Ok <==> rec.spec_phase() == Phase::Eligible,
        rec.spec_withdraw_check() is Ok <==> rec.spec_phase() == Phase::Locked,
        rec.spec_phase() == Phase::NotEligible ==> {
            &&& rec.spec_entry_check() == Err::<(), Error>(Error::NotEligible)
            &&& rec.spec_withdraw_check() == Err::<(), Error>(Error::NotEligible)
        },
        rec.spec_phase() == Phase::Eligible ==> rec.spec_withdraw_check() == Err::<(), Error>(
            Error::NotLocked,
        ),
        rec.spec_phase() == Phase::ClaimedTerminal ==> {
            &&& rec.spec_entry_check() == Err::<(), Error>(Error::AlreadyFinalized)
            &&& rec.spec_withdraw_check() == Err::<(), Error>(Error::NotLocked)
        },
        rec.spec_phase() == Phase::Locked ==> rec.spec_entry_check() == Err::<(), Error>(
            Error::AlreadyFinalized,
        ),
        rec.spec_phase() == Phase::WithdrawnTerminal ==> {
            &&& rec.spec_entry_check() == Err::<(), Error>(Error::AlreadyFinalized)
            &&& rec.spec_withdraw_check() == Err::<(), Error>(Error::AlreadyWithdrawn)
        },
{
}

/// The moves of the state machine. The blank record is well formed and
/// `NotEligible`. From a well-formed record: a grant makes a record that has
/// taken no path `Eligible`; a claim leads from `Eligible` to
/// `ClaimedTerminal`; a lock from `Eligible` to `Locked`; a payout from
/// `Locked` to `WithdrawnTerminal`; a reset leads to `Eligible` from anywhere.
/// Each leaves a well-formed record.
pub proof fn law_phase_moves(rec: UserState, tier_id: u32, now: u64, unlock_at: u64)
    requires
        rec.spec_well_formed(),
        now <= unlock_at,
    ensures
        UserState::spec_blank().spec_well_formed(),
        UserState::spec_blank().spec_phase() == Phase::NotEligible,
        rec.spec_granted(tier_id).spec_well_formed(),
        !rec.spec_finalized() ==> rec.spec_granted(tier_id).spec_phase() == Phase::Eligible,
        rec.spec_finalized() ==> rec.spec_granted(tier_id).spec_phase() == rec.spec_phase(),
        rec.spec_phase() == Phase::Eligible ==> {
            &&& rec.spec_claimed().spec_well_formed()
            &&& rec.spec_claimed().spec_phase() == Phase::ClaimedTerminal
            &&& rec.spec_locked_from(now, unlock_at).spec_well_formed()
            &&& rec.spec_locked_from(now, unlock_at).spec_phase() == Phase::Locked
        },
        rec.spec_phase() == Phase::Locked ==> {
            &&& rec.spec_paid_out().spec_well_formed()
            &&& rec.spec_paid_out().spec_phase() == Phase::WithdrawnTerminal
        },
        rec.spec_rewound().spec_well_formed(),
        rec.spec_rewound().spec_phase() == Phase::Eligible,
{
}

/// A state whose records are those of a state with well-formed records, but
/// for one that is well formed too, has well-formed records.
proof fn lemma_one_record_written(s: State, who: Principal, rec: UserState)
    requires
        s.records_well_formed(),
        rec.spec_well_formed(),
    ensures
        s.with_user(who, rec).records_well_formed(),
{
    assert forall|other: Principal| #[trigger]
        s.with_user(who, rec).record(other).spec_well_formed() by {
        if other != who {
            assert(s.with_user(who, rec).record(other) == s.record(other));
        }
    }
}

/// The entry points keep every record well formed.
pub proof fn law_records_stay_well_formed(
    s: State,
    who: Principal,
    admin: Principal,
    token: Principal,
    id: u32,
    tier: Tier,
    now: u64,
)
    requires
        s.records_well_formed(),
        s.lock_fits(who, now),
    ensures
        State::blank().records_well_formed(),
        s.init(admin, token).0.records_well_formed(),
        s.admin_set_tier(id, tier).0.records_well_formed(),
        s.admin_set_eligible(who, id).0.records_well_formed(),
        s.claim_now(who).0.records_well_formed(),
        s.lock(who, now).0.records_well_formed(),
        s.withdraw(who, now).0.records_well_formed(),
        s.admin_reset_user(admin, who).0.records_well_formed(),
{
    let rec = s.record(who);
    assert(rec.spec_well_formed());
    assert forall|other: Principal| #[trigger]
        State::blank().record(other).spec_well_formed() by {}
    assert forall|other: Principal| #[trigger]
        s.init(admin, token).0.record(other).spec_well_formed() by {
        assert(s.record(other).spec_well_formed());
    }
    assert forall|other: Principal| #[trigger]
        s.admin_set_tier(id, tier).0.record(other).spec_well_formed() by {
        assert(s.admin_set_tier(id, tier).0.record(other) == s.record(other));
    }
    lemma_one_record_written(s, who, rec.spec_granted(id));
    lemma_one_record_written(s, who, rec.spec_rewound());
    if s.entrant(who) is Ok {
        lemma_one_record_written(s, who, rec.spec_claimed());
        let unlock_at = (now + s.entrant(who)->Ok_0.1.lock_secs) as u64;
        lemma_one_record_written(s, who, rec.spec_locked_from(now, unlock_at));
    }
    if s.withdrawer(who) is Ok {
        lemma_one_record_written(s, who, rec.spec_paid_out());
    }
}

/// Only a reset takes the paid mark away: whatever any participant or the
/// administrator does otherwise, a record that is marked paid stays so.
pub proof fn law_paid_stays_paid(
    s: State,
    who: Principal,
    other: Principal,
    admin: Principal,
    token: Principal,
    id: u32,
    tier: Tier,
    now: u64,
)
    requires
        s.coherent(),
        s.record(who).withdrawn,
    ensures
        s.init(admin, token).1 is Err,
        s.admin_set_tier(id, tier).0.record(who).withdrawn,
        s.admin_set_eligible(other, id).0.record(who).withdrawn,
        s.claim_now(other).0.record(who).withdrawn,
        s.lock(other, now).0.record(who).withdrawn,
        s.withdraw(other, now).0.record(who).withdrawn,
        other != who ==> s.admin_reset_user(admin, other).0.record(who).withdrawn,
{
    assert(s.user(who) is Some);
    assert(s.users is Some);
}

/// At most one payout per record: in a run of calls, whatever they are and
/// whoever makes them, that holds no reset of the record of `who`, at most one
/// call pays `who`, and none does where the record is marked paid at the start.
pub proof fn law_paid_at_most_once(s: State, calls: Seq<Call>, who: Principal)
    requires
        s.coherent(),
        forall|i: int| 0 <= i < calls.len() ==> !(#[trigger] calls[i]).rewinds(who),
    ensures
        s.payouts(calls, who) <= 1,
        s.record(who).withdrawn ==> s.payouts(calls, who) == 0,
        s.after_all(calls).coherent(),
    decreases calls.len(),
{
    if calls.len() > 0 {
        let call = calls.first();
        let rest = calls.drop_first();
        let next = s.after(call);
        assert(!call.rewinds(who));
        assert forall|i: int| 0 <= i < rest.len() implies !(#[trigger] rest[i]).rewinds(who) by {
            assert(rest[i] == calls[i + 1]);
        }
        lemma_call_keeps_paid(s, call, who);
        law_paid_at_most_once(next, rest, who);
    }
}

/// One call that is no reset of the record of `who`: it keeps the slots
/// together; it pays `who` only where the record is not marked paid, and then
/// marks it; and it leaves a paid mark in place.
proof fn lemma_call_keeps_paid(s: State, call: Call, who: Principal)
    requires
        s.coherent(),
        !call.rewinds(who),
    ensures
        s.after(call).coherent(),
        s.pays(call, who) ==> !s.record(who).withdrawn && s.after(call).record(who).withdrawn,
        s.record(who).withdrawn ==> s.after(call).record(who).withdrawn,
{
    match call {
        Call::Init { admin, token } => {
            law_slots_stay_together(s, who, admin, token, 0, Tier::spec_standard(), 0);
            if s.record(who).withdrawn {
                law_paid_stays_paid(s, who, who, admin, token, 0, Tier::spec_standard(), 0);
            }
        },
        Call::SetTier { id, tier } => {
            law_slots_stay_together(s, who, who, who, id, tier, 0);
            if s.record(who).withdrawn {
                law_paid_stays_paid(s, who, who, who, who, id, tier, 0);
            }
        },
        Call::SetEligible { who: other, id } => {
            law_slots_stay_together(s, other, who, who, id, Tier::spec_standard(), 0);
            if s.record(who).withdrawn {
                law_paid_stays_paid(s, who, other, who, who, id, Tier::spec_standard(), 0);
            }
        },
        Call::ClaimNow { who: other } => {
            law_slots_stay_together(s, other, who, who, 0, Tier::spec_standard(), 0);
            law_payout_marks_paid(s, other, 0);
            if s.record(who).withdrawn {
                law_paid_stays_paid(s, who, other, who, who, 0, Tier::spec_standard(), 0);
                law_paid_is_final(s, who, 0);
            }
        },
        Call::Lock { who: other, now } => {
            law_slots_stay_together(s, other, who, who, 0, Tier::spec_standard(), now);
            if s.record(who).withdrawn {
                law_paid_stays_paid(s, who, other, who, who, 0, Tier::spec_standard(), now);
            }
        },
        Call::Withdraw { who: other, now } => {
            law_slots_stay_together(s, other, who, who, 0, Tier::spec_standard(), now);
            law_payout_marks_paid(s, other, now);
            if s.record(who).withdrawn {
                law_paid_stays_paid(s, who, other, who, who, 0, Tier::spec_standard(), now);
                law_paid_is_final(s, who, now);
            }
        },
        Call::Reset { admin, who: other } => {
            law_slots_stay_together(s, other, admin, who, 0, Tier::spec_standard(), 0);
            if s.record(who).withdrawn {
                law_paid_stays_paid(s, who, other, admin, who, 0, Tier::spec_standard(), 0);
            }
        },
    }
}

/// A reset by the administrator rewinds a record to eligible with no path
/// taken and no timestamps, keeps its tier, and with a defined tier lets the
/// participant claim or lock again.
pub proof fn law_reset_reopens(s: State, admin: Principal, who: Principal, now: u64)
    requires
        s.initialized(),
        s.admin == Some(admin),
    ensures
        ({
            let reset = s.admin_reset_user(admin, who);
            let rec = reset.0.record(who);
            &&& reset.1 is Ok
            &&& rec.eligible
            &&& !rec.claimed_now && !rec.locked && !rec.withdrawn
            &&& rec.locked_at == 0 && rec.unlock_at == 0
            &&& rec.tier_id == s.record(who).tier_id
            &&& s.tier(rec.tier_id) is Some ==> reset.0.claim_now(who).1 is Ok
            &&& s.tier(rec.tier_id) is Some && reset.0.lock_fits(who, now) ==> reset.0.lock(
                who,
                now,
            ).1 is Ok
        }),
{
    let reset = s.admin_reset_user(admin, who);
    assert(reset.0.user(who) == Some(s.record(who).spec_rewound()));
}

/// A reset asked by anyone but the administrator is refused with `NotAdmin`.
pub proof fn law_reset_needs_admin(s: State, admin: Principal, who: Principal)
    requires
        s.initialized(),
        s.admin != Some(admin),
    ensures
        s.admin_reset_user(admin, who) == (s, Err::<(), Error>(Error::NotAdmin)),
{
}

/// Granting eligibility again does not reopen a record that has taken a path:
/// claiming and locking stay refused with `AlreadyFinalized` until a reset.
pub proof fn law_grant_does_not_reopen(s: State, who: Principal, id: u32, now: u64)
    requires
        s.record(who).spec_finalized(),
        s.admin_set_eligible(who, id).1 is Ok,
    ensures
        s.admin_set_eligible(who, id).0.claim_now(who).1 == Err::<i128, Error>(
            Error::AlreadyFinalized,
        ),
        s.admin_set_eligible(who, id).0.lock(who, now).1 == Err::<u64, Error>(
            Error::AlreadyFinalized,
        ),
{
    assert(s.admin_set_eligible(who, id).0.user(who) == Some(s.record(who).spec_granted(id)));
}

} // verus!
