use commitment::{Commitment, Error, UserState};
use soroban_sdk::testutils::{Address as _, EnvTestConfig, Ledger as _};
use soroban_sdk::{Address, Env};

fn host() -> Env {
    Env::new_with_config(EnvTestConfig { capture_snapshot_at_drop: false })
}

fn started(e: &Env) -> (Commitment, Address) {
    let admin = Address::generate(e);
    let token = Address::generate(e);
    let mut c = Commitment::new();
    assert_eq!(c.init(e, admin.clone(), token), Ok(()));
    (c, admin)
}

#[test]
fn lock_then_early_withdraw_then_refused() {
    let e = host();
    let (mut c, _admin) = started(&e);
    let u = Address::generate(&e);
    assert_eq!(c.admin_set_eligible(&e, &u, 1), Ok(()));
    assert_eq!(c.lock(&e, &u, 1000), Some(Ok(7_777_000)));
    assert_eq!(c.withdraw(&e, &u, 7_776_999), Ok(150_000_000));
    assert_eq!(
        c.get_user(&u),
        Ok(UserState {
            eligible: true,
            tier_id: 1,
            locked_at: 1000,
            unlock_at: 7_777_000,
            claimed_now: false,
            locked: true,
            withdrawn: true,
        })
    );
    assert_eq!(c.withdraw(&e, &u, 7_777_000), Err(Error::AlreadyWithdrawn));
    assert_eq!(c.withdraw(&e, &u, 0), Err(Error::AlreadyWithdrawn));
}

#[test]
fn withdraw_at_maturity_pays_mature() {
    let e = host();
    let (mut c, _admin) = started(&e);
    let u = Address::generate(&e);
    assert_eq!(c.admin_set_eligible(&e, &u, 1), Ok(()));
    assert_eq!(c.lock(&e, &u, 1000), Some(Ok(7_777_000)));
    assert_eq!(c.withdraw(&e, &u, 7_777_000), Ok(350_000_000));
    assert!(c.get_user(&u).unwrap().withdrawn);
}

#[test]
fn withdraw_after_maturity_pays_mature() {
    let e = host();
    let (mut c, _admin) = started(&e);
    let u = Address::generate(&e);
    assert_eq!(c.admin_set_eligible(&e, &u, 1), Ok(()));
    assert_eq!(c.lock(&e, &u, 1000), Some(Ok(7_777_000)));
    assert_eq!(c.withdraw(&e, &u, u64::MAX), Ok(350_000_000));
}

#[test]
fn reset_after_withdrawal_reopens_the_record() {
    let e = host();
    let (mut c, admin) = started(&e);
    let u = Address::generate(&e);
    assert_eq!(c.admin_set_eligible(&e, &u, 1), Ok(()));
    assert_eq!(c.lock(&e, &u, 1000), Some(Ok(7_777_000)));
    assert_eq!(c.withdraw(&e, &u, 7_776_999), Ok(150_000_000));
    assert_eq!(c.admin_reset_user(&e, &admin, &u), Ok(()));
    assert_eq!(
        c.get_user(&u),
        Ok(UserState {
            eligible: true,
            tier_id: 1,
            locked_at: 0,
            unlock_at: 0,
            claimed_now: false,
            locked: false,
            withdrawn: false,
        })
    );
    assert_eq!(c.lock(&e, &u, 5), Some(Ok(7_776_005)));
}

#[test]
fn reset_after_withdrawal_allows_a_claim() {
    let e = host();
    let (mut c, admin) = started(&e);
    let u = Address::generate(&e);
    assert_eq!(c.admin_set_eligible(&e, &u, 1), Ok(()));
    assert_eq!(c.lock(&e, &u, 1000), Some(Ok(7_777_000)));
    assert_eq!(c.withdraw(&e, &u, 7_777_000), Ok(350_000_000));
    assert_eq!(c.admin_reset_user(&e, &admin, &u), Ok(()));
    assert_eq!(c.claim_now(&e, &u), Ok(200_000_000));
}

#[test]
fn claim_now_pays_once() {
    let e = host();
    let (mut c, _admin) = started(&e);
    let u = Address::generate(&e);
    assert_eq!(c.admin_set_eligible(&e, &u, 1), Ok(()));
    assert_eq!(c.claim_now(&e, &u), Ok(200_000_000));
    assert_eq!(
        c.get_user(&u),
        Ok(UserState {
            eligible: true,
            tier_id: 1,
            locked_at: 0,
            unlock_at: 0,
            claimed_now: true,
            locked: false,
            withdrawn: true,
        })
    );
    assert_eq!(c.claim_now(&e, &u), Err(Error::AlreadyFinalized));
    assert_eq!(c.lock(&e, &u, 1), Some(Err(Error::AlreadyFinalized)));
    assert_eq!(c.withdraw(&e, &u, 1), Err(Error::NotLocked));
}

#[test]
fn the_time_of_the_ledger_is_handed_in() {
    let e = host();
    let (mut c, _admin) = started(&e);
    let u = Address::generate(&e);
    let v = Address::generate(&e);
    assert_eq!(c.admin_set_eligible(&e, &u, 1), Ok(()));
    assert_eq!(c.admin_set_eligible(&e, &v, 1), Ok(()));
    e.ledger().set_timestamp(1000);
    assert_eq!(c.lock(&e, &u, e.ledger().timestamp()), Some(Ok(7_777_000)));
    assert_eq!(c.lock(&e, &v, e.ledger().timestamp()), Some(Ok(7_777_000)));
    assert_eq!(c.get_user(&u).unwrap().locked_at, 1000);
    e.ledger().set_timestamp(7_776_999);
    assert_eq!(c.withdraw(&e, &u, e.ledger().timestamp()), Ok(150_000_000));
    e.ledger().set_timestamp(7_777_000);
    assert_eq!(c.withdraw(&e, &v, e.ledger().timestamp()), Ok(350_000_000));
}

#[test]
fn participants_do_not_touch_each_other() {
    let e = host();
    let (mut c, _admin) = started(&e);
    let u = Address::generate(&e);
    let v = Address::generate(&e);
    assert_eq!(c.admin_set_eligible(&e, &u, 1), Ok(()));
    assert_eq!(c.admin_set_eligible(&e, &v, 1), Ok(()));
    assert_eq!(c.claim_now(&e, &u), Ok(200_000_000));
    let rec = c.get_user(&v).unwrap();
    assert!(rec.eligible && !rec.claimed_now && !rec.locked && !rec.withdrawn);
    assert_eq!(c.lock(&e, &v, 10), Some(Ok(7_776_010)));
    assert!(c.get_user(&u).unwrap().claimed_now);
    assert!(!c.get_user(&u).unwrap().locked);
}

#[test]
fn a_tier_of_the_administrator_sets_the_amounts() {
    let e = host();
    let (mut c, _admin) = started(&e);
    let u = Address::generate(&e);
    let tier = commitment::Tier { lock_secs: 100, payout_now: 1, payout_early: 2, payout_mature: 3 };
    assert_eq!(c.admin_set_tier(&e, 7, tier), Ok(()));
    assert_eq!(c.tier(7), Some(tier));
    assert_eq!(c.admin_set_eligible(&e, &u, 7), Ok(()));
    assert_eq!(c.lock(&e, &u, 50), Some(Ok(150)));
    assert_eq!(c.withdraw(&e, &u, 149), Ok(2));
}

#[test]
fn a_replaced_tier_applies_to_those_already_assigned() {
    let e = host();
    let (mut c, _admin) = started(&e);
    let u = Address::generate(&e);
    assert_eq!(c.admin_set_eligible(&e, &u, 1), Ok(()));
    let tier = commitment::Tier { lock_secs: 10, payout_now: 11, payout_early: 12, payout_mature: 13 };
    assert_eq!(c.admin_set_tier(&e, 1, tier), Ok(()));
    assert_eq!(c.claim_now(&e, &u), Ok(11));
}

#[test]
fn one_payout_per_record_without_a_reset() {
    let e = host();
    let (mut c, _admin) = started(&e);
    let u = Address::generate(&e);
    let mut paid = 0;
    assert_eq!(c.admin_set_eligible(&e, &u, 1), Ok(()));
    if c.lock(&e, &u, 100) == Some(Ok(7_776_100)) {
        assert_eq!(c.get_user(&u).unwrap().withdrawn, false);
    }
    for now in [50u64, 7_776_100, 7_776_101, u64::MAX] {
        if c.claim_now(&e, &u).is_ok() {
            paid += 1;
        }
        if c.withdraw(&e, &u, now).is_ok() {
            paid += 1;
        }
        assert_eq!(c.admin_set_eligible(&e, &u, 1), Ok(()));
        assert_eq!(c.admin_set_tier(&e, 1, commitment::Tier::standard()), Ok(()));
        assert_eq!(c.lock(&e, &u, now), Some(Err(Error::AlreadyFinalized)));
    }
    assert_eq!(paid, 1);
}
