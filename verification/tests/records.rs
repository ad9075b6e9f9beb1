use commitment::engine::Phase;
use commitment::{default_user, Error, Tier, UserState};

fn eligible() -> UserState {
    default_user().granted(1)
}

#[test]
fn default_user_is_blank() {
    let s = default_user();
    assert_eq!(
        s,
        UserState {
            eligible: false,
            tier_id: 0,
            locked_at: 0,
            unlock_at: 0,
            claimed_now: false,
            locked: false,
            withdrawn: false,
        }
    );
    assert_eq!(s, UserState::blank());
    assert!(s.well_formed());
    assert_eq!(s.phase(), Phase::NotEligible);
}

#[test]
fn standard_tier_has_the_documented_amounts() {
    let t = Tier::standard();
    assert_eq!(t.lock_secs, 90 * 24 * 60 * 60);
    assert_eq!(t.payout_now, 200_000_000);
    assert_eq!(t.payout_early, 150_000_000);
    assert_eq!(t.payout_mature, 350_000_000);
    assert_eq!(commitment::model::DEFAULT_TIER_ID, 1);
}

#[test]
fn payout_boundary_counts_as_mature() {
    let t = Tier { lock_secs: 0, payout_now: 1, payout_early: 2, payout_mature: 3 };
    assert_eq!(t.payout_at(99, 100), 2);
    assert_eq!(t.payout_at(100, 100), 3);
    assert_eq!(t.payout_at(101, 100), 3);
    assert_eq!(t.payout_at(0, 0), 3);
    assert_eq!(t.payout_at(u64::MAX - 1, u64::MAX), 2);
}

#[test]
fn rows_round_trip() {
    let t = Tier { lock_secs: 1, payout_now: 2, payout_early: 3, payout_mature: 4 };
    assert_eq!(t.row(), (1, 2, 3, 4));
    assert_eq!(Tier::from_row((1, 2, 3, 4)), t);
    let s = UserState {
        eligible: true,
        tier_id: 2,
        locked_at: 3,
        unlock_at: 4,
        claimed_now: false,
        locked: true,
        withdrawn: false,
    };
    assert_eq!(s.row(), (true, 2, 3, 4, false, true, false));
    assert_eq!(UserState::from_row((true, 2, 3, 4, false, true, false)), s);
    assert_eq!(
        UserState::from_row((false, 0, 0, 0, true, false, true)),
        UserState {
            eligible: false,
            tier_id: 0,
            locked_at: 0,
            unlock_at: 0,
            claimed_now: true,
            locked: false,
            withdrawn: true,
        }
    );
}

#[test]
fn grant_keeps_flags_and_times() {
    let s = eligible().locked_from(5, 9).granted(3);
    assert_eq!(
        s,
        UserState {
            eligible: true,
            tier_id: 3,
            locked_at: 5,
            unlock_at: 9,
            claimed_now: false,
            locked: true,
            withdrawn: false,
        }
    );
}

#[test]
fn entry_check_names_the_first_reason() {
    assert_eq!(default_user().entry_check(), Err(Error::NotEligible));
    assert_eq!(eligible().entry_check(), Ok(()));
    assert_eq!(eligible().claimed().entry_check(), Err(Error::AlreadyFinalized));
    assert_eq!(eligible().locked_from(1, 2).entry_check(), Err(Error::AlreadyFinalized));
    assert_eq!(eligible().locked_from(1, 2).paid_out().entry_check(), Err(Error::AlreadyFinalized));
    let mut odd = default_user();
    odd.withdrawn = true;
    assert_eq!(odd.entry_check(), Err(Error::NotEligible));
    odd.eligible = true;
    assert_eq!(odd.entry_check(), Err(Error::AlreadyFinalized));
}

#[test]
fn withdraw_check_names_the_first_reason() {
    assert_eq!(default_user().withdraw_check(), Err(Error::NotEligible));
    assert_eq!(eligible().withdraw_check(), Err(Error::NotLocked));
    assert_eq!(eligible().claimed().withdraw_check(), Err(Error::NotLocked));
    assert_eq!(eligible().locked_from(1, 2).withdraw_check(), Ok(()));
    assert_eq!(eligible().locked_from(1, 2).paid_out().withdraw_check(), Err(Error::AlreadyWithdrawn));
}

#[test]
fn phases_follow_the_moves() {
    assert_eq!(eligible().phase(), Phase::Eligible);
    assert_eq!(eligible().claimed().phase(), Phase::ClaimedTerminal);
    assert_eq!(eligible().locked_from(1, 2).phase(), Phase::Locked);
    assert_eq!(eligible().locked_from(1, 2).paid_out().phase(), Phase::WithdrawnTerminal);
    assert_eq!(eligible().claimed().rewound().phase(), Phase::Eligible);
    assert_eq!(eligible().locked_from(1, 2).paid_out().rewound().phase(), Phase::Eligible);
    assert_eq!(default_user().rewound().phase(), Phase::Eligible);
}

#[test]
fn moves_leave_well_formed_records() {
    assert!(eligible().well_formed());
    assert!(eligible().claimed().well_formed());
    assert!(eligible().locked_from(1, 2).well_formed());
    assert!(eligible().locked_from(2, 2).paid_out().well_formed());
    assert!(eligible().locked_from(1, 2).paid_out().rewound().well_formed());
    assert!(!eligible().locked_from(3, 2).well_formed());
    assert!(!default_user().claimed().well_formed());
    assert!(!eligible().paid_out().well_formed());
    let mut odd = eligible();
    odd.unlock_at = 1;
    assert!(!odd.well_formed());
}

#[test]
fn finalized_is_any_flag() {
    assert!(!default_user().finalized());
    assert!(!eligible().finalized());
    assert!(eligible().claimed().finalized());
    assert!(eligible().locked_from(1, 2).finalized());
    assert!(eligible().paid_out().finalized());
}

#[test]
fn rewound_keeps_the_tier() {
    let s = default_user().granted(5).locked_from(7, 8).paid_out().rewound();
    assert_eq!(
        s,
        UserState {
            eligible: true,
            tier_id: 5,
            locked_at: 0,
            unlock_at: 0,
            claimed_now: false,
            locked: false,
            withdrawn: false,
        }
    );
}
