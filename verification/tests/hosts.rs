use commitment::{Commitment, Error, UserLedger, UserState};
use soroban_sdk::testutils::{Address as _, EnvTestConfig};
use soroban_sdk::{Address, Bytes, Env};

fn host() -> Env {
    Env::new_with_config(EnvTestConfig { capture_snapshot_at_drop: false })
}

fn record(tier_id: u32) -> UserState {
    UserState {
        eligible: true,
        tier_id,
        locked_at: 0,
        unlock_at: 0,
        claimed_now: false,
        locked: false,
        withdrawn: false,
    }
}

/// The same account or contract, as an address of the host `e`.
fn in_host(e: &Env, a: &Address) -> Address {
    Address::from_str(e, &a.to_string().to_string())
}

#[test]
fn same_handle_in_another_host_is_another_participant() {
    let e1 = host();
    let e2 = host();
    let _filler = Bytes::from_slice(&e1, &[1, 2, 3]);
    let _first = Address::generate(&e1);
    let b = Address::generate(&e1);
    let _x = Address::generate(&e2);
    let _y = Address::generate(&e2);
    let s = Address::generate(&e2);
    assert_eq!(s.to_val().get_payload(), b.to_val().get_payload());
    assert!(s != b);

    let mut l = UserLedger::new(&e1);
    l.set(&b, record(1));
    assert_eq!(l.get(&b), Some(record(1)));
    assert_eq!(l.get(&s), None);
    l.set(&s, record(2));
    assert_eq!(l.get(&b), Some(record(1)));
    assert_eq!(l.get(&s), Some(record(2)));
    assert_eq!(l.into_map().len(), 2);
}

#[test]
fn same_handle_in_another_host_is_not_eligible() {
    let e1 = host();
    let e2 = host();
    let _filler = Bytes::from_slice(&e2, &[0]);
    let _other = Address::generate(&e2);
    let s = Address::generate(&e2);
    let mut c = Commitment::new();
    let admin = Address::generate(&e1);
    let token = Address::generate(&e1);
    let b = Address::generate(&e1);
    assert_eq!(s.to_val().get_payload(), b.to_val().get_payload());
    assert!(s != b);
    assert_eq!(c.init(&e1, admin, token), Ok(()));
    assert_eq!(c.admin_set_eligible(&e1, &b, 1), Ok(()));
    assert_eq!(c.user(&s), None);
    assert_eq!(c.get_user(&s), Ok(commitment::default_user()));
    assert_eq!(c.claim_now(&e1, &s), Err(Error::NotEligible));
    assert_eq!(c.lock(&e1, &s, 1), Some(Err(Error::NotEligible)));
    assert_eq!(c.withdraw(&e1, &s, 1), Err(Error::NotEligible));
    assert_eq!(c.claim_now(&e1, &b), Ok(200_000_000));
}

#[test]
fn a_handle_that_the_map_host_does_not_know_is_no_entry() {
    let e1 = host();
    let e2 = host();
    let mut last = Address::generate(&e2);
    for _ in 0..40 {
        last = Address::generate(&e2);
    }
    let mut l = UserLedger::new(&e1);
    assert_eq!(l.get(&last), None);
    l.set(&last, record(4));
    assert_eq!(l.get(&last), Some(record(4)));
    assert_eq!(l.get(&in_host(&e1, &last)), Some(record(4)));
}

#[test]
fn a_participant_is_the_same_in_every_host() {
    let e1 = host();
    let e2 = host();
    let _filler = (Bytes::from_slice(&e2, &[9, 9]), Bytes::from_slice(&e2, &[8]));
    let (admin, token, u) =
        (Address::generate(&e1), Address::generate(&e1), Address::generate(&e1));
    let u2 = in_host(&e2, &u);
    assert!(u2 == u);
    assert!(u2.to_val().get_payload() != u.to_val().get_payload());
    let mut c = Commitment::new();
    assert_eq!(c.init(&e1, admin, token), Ok(()));
    assert_eq!(c.admin_set_eligible(&e1, &u2, 1), Ok(()));
    assert_eq!(c.get_user(&u), Ok(record(1)));
    assert_eq!(c.lock(&e1, &u, 1000), Some(Ok(7_777_000)));
    assert_eq!(c.get_user(&u2), c.get_user(&u));
    assert_eq!(c.lock(&e2, &u2, 1000), Some(Err(Error::AlreadyFinalized)));
    assert_eq!(c.withdraw(&e2, &u2, 7_777_000), Ok(350_000_000));
    assert_eq!(c.withdraw(&e1, &u, 7_777_000), Err(Error::AlreadyWithdrawn));
    let (_, _, _, users) = c.into_slots();
    assert_eq!(users.unwrap().len(), 1);
}

#[test]
fn the_administrator_is_the_same_in_every_host() {
    let e1 = host();
    let e2 = host();
    let admin = Address::generate(&e1);
    let token = Address::generate(&e1);
    let _same_as_admin = Address::generate(&e2);
    let _same_as_token = Address::generate(&e2);
    let u = Address::generate(&e2);
    assert!(u != admin);
    let mut c = Commitment::new();
    assert_eq!(c.init(&e1, admin.clone(), token), Ok(()));
    assert_eq!(c.admin_set_eligible(&e1, &u, 1), Ok(()));
    assert_eq!(c.claim_now(&e1, &u), Ok(200_000_000));
    assert_eq!(c.admin_reset_user(&e1, &u, &u), Err(Error::NotAdmin));
    assert_eq!(c.admin_reset_user(&e2, &in_host(&e2, &admin), &u), Ok(()));
    assert_eq!(c.get_user(&in_host(&e1, &u)), Ok(record(1)));
}

#[test]
fn tables_made_in_one_host_serve_calls_with_another() {
    let e1 = host();
    let e2 = host();
    let admin = Address::generate(&e2);
    let token = Address::generate(&e2);
    let u = Address::generate(&e2);
    let mut c = Commitment::new();
    assert_eq!(c.init(&e1, admin, token), Ok(()));
    assert_eq!(c.admin_set_eligible(&e2, &u, 1), Ok(()));
    assert_eq!(c.lock(&e2, &u, 1000), Some(Ok(7_777_000)));
    assert_eq!(c.withdraw(&e1, &u, 5), Ok(150_000_000));
}
