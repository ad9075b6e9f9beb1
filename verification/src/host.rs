//! What this library takes on trust from the Soroban SDK: the host types it
//! carries, the maps it keeps tiers and participant records in, and address
//! comparison.
//!
//! Nothing in this file is proved. Each item says what it claims of the SDK.
//! An address is a handle into the `Env` it was made in, and a host map takes
//! keys of its own `Env` only. So the two functions that look a participant up
//! make the key anew in the map's `Env`, from the address's text; an address
//! of any `Env` is then a key to every map. Host calls that exhaust the host's
//! budget abort the invocation, as running out of memory does.

use vstd::prelude::*;

use crate::model::{TierRow, UserRow};

verus! {

/// `soroban_sdk::Env`, the handle to the host. Opaque here.
#[verifier::external_type_specification]
#[verifier::external_body]
pub struct ExEnv(soroban_sdk::Env);

/// `soroban_sdk::Address`, the identifier of an account or a contract. Opaque
/// here; `address_key` says what one stands for.
#[verifier::external_type_specification]
#[verifier::external_body]
pub struct ExAddress(soroban_sdk::Address);

/// `soroban_sdk::Map`, the host's ordered key-value dictionary. Opaque here;
/// `tier_entries` and `user_entries` say what one holds.
#[verifier::external_type_specification]
#[verifier::external_body]
#[verifier::reject_recursive_types(K)]
#[verifier::reject_recursive_types(V)]
pub struct ExMap<K, V>(soroban_sdk::Map<K, V>);

/// The host map that keeps the tiers, by tier identifier.
pub type TierMap = soroban_sdk::Map<u32, TierRow>;

/// The host map that keeps the participant records, by participant.
pub type UserMap = soroban_sdk::Map<soroban_sdk::Address, UserRow>;

/// The account or contract that an address names, as the text that
/// `Address::to_string` gives for it (its strkey). Two addresses compare equal
/// exactly when this text is the same, and `Address::from_string_bytes` makes
/// of the text an address with the same text, in any `Env`.
pub uninterp spec fn address_key(a: soroban_sdk::Address) -> Seq<char>;

/// The entries of a tier map: each tier identifier under which it holds a
/// value that reads as a `TierRow`, with that value.
pub uninterp spec fn tier_entries(m: TierMap) -> Map<u32, TierRow>;

/// Whether a tier map holds tier rows only: every key a tier identifier, every
/// value one that reads as a `TierRow`. It is so of a map that was made empty
/// and filled by `set`. Of a map that the host hands out it is so where tier
/// rows are all that was ever put in it; reading another value aborts.
pub uninterp spec fn tier_rows_only(m: TierMap) -> bool;

/// The entries of a participant map: for each address under which it holds a
/// value that reads as a `UserRow`, that value under the address's key.
pub uninterp spec fn user_entries(m: UserMap) -> Map<Seq<char>, UserRow>;

/// Whether a participant map holds participant rows only: every key an address,
/// every value one that reads as a `UserRow`. As `tier_rows_only`.
pub uninterp spec fn user_rows_only(m: UserMap) -> bool;

/// `Address`'s `==`. The SDK compares the two host objects, which are equal
/// exactly when they name the same account or contract.
#[verifier::external_body]
pub(crate) fn same_address(a: &soroban_sdk::Address, b: &soroban_sdk::Address) -> (same: bool)
    ensures
        same == (address_key(*a) == address_key(*b)),
{
    a == b
}

/// `Map::new`: a map with no entries.
#[verifier::external_body]
pub(crate) fn tier_map_new(e: &soroban_sdk::Env) -> (m: TierMap)
    ensures
        tier_entries(m) == (Map::<u32, TierRow>::empty()),
        tier_rows_only(m),
{
    soroban_sdk::Map::new(e)
}

/// `Map::get`: the value under `id`, or `None` where the map has no entry
/// under it. `Map::get` panics on a value that does not read as a `TierRow`,
/// which `requires` leaves out.
#[verifier::external_body]
pub(crate) fn tier_map_get(m: &TierMap, id: u32) -> (row: Option<TierRow>)
    requires
        tier_rows_only(*m),
    ensures
        row == (if tier_entries(*m).contains_key(id) {
            Some(tier_entries(*m)[id])
        } else {
            None
        }),
{
    m.get(id)
}

/// `Map::set`, on a copy of the handle: the map that holds `row` under `id`,
/// in place of what `m` holds there, and every other entry of `m`. A map of
/// rows gives a map of rows. Host maps are values: `set` makes a new one and
/// leaves the old one as it was.
#[verifier::external_body]
pub(crate) fn tier_map_with(m: &TierMap, id: u32, row: TierRow) -> (next: TierMap)
    ensures
        tier_entries(next) == tier_entries(*m).insert(id, row),
        tier_rows_only(*m) ==> tier_rows_only(next),
{
    let mut next = m.clone();
    next.set(id, row);
    next
}

/// `Map::new`: a map with no entries.
#[verifier::external_body]
pub(crate) fn user_map_new(e: &soroban_sdk::Env) -> (m: UserMap)
    ensures
        user_entries(m) == (Map::<Seq<char>, UserRow>::empty()),
        user_rows_only(m),
{
    soroban_sdk::Map::new(e)
}

/// `Map::get`: the value under the address `who`, or `None` where the map has
/// no entry under it. The key is the address that `Address::from_string_bytes`
/// makes in the map's own `Env` of the text that `Address::to_string` gives
/// for `who`, so `who` may come from any `Env`. `Map::get` panics on a value
/// that does not read as a `UserRow`, which `requires` leaves out.
#[verifier::external_body]
pub(crate) fn user_map_get(m: &UserMap, who: &soroban_sdk::Address) -> (row: Option<UserRow>)
    requires
        user_rows_only(*m),
    ensures
        row == (if user_entries(*m).contains_key(address_key(*who)) {
            Some(user_entries(*m)[address_key(*who)])
        } else {
            None
        }),
{
    let text = who.to_string();
    let mut raw = vec![0u8; text.len() as usize];
    text.copy_into_slice(&mut raw);
    let strkey = soroban_sdk::Bytes::from_slice(m.env(), &raw);
    m.get(soroban_sdk::Address::from_string_bytes(&strkey))
}

/// `Map::set`, on a copy of the handle: the map that holds `row` under the
/// address `who`, in place of what `m` holds there, and every other entry of
/// `m`. A map of rows gives a map of rows. The key is made in the map's own
/// `Env` as in `user_map_get`, so `who` may come from any `Env`.
#[verifier::external_body]
pub(crate) fn user_map_with(
    m: &UserMap,
    who: &soroban_sdk::Address,
    row: UserRow,
) -> (next: UserMap)
    ensures
        user_entries(next) == user_entries(*m).insert(address_key(*who), row),
        user_rows_only(*m) ==> user_rows_only(next),
{
    let text = who.to_string();
    let mut raw = vec![0u8; text.len() as usize];
    text.copy_into_slice(&mut raw);
    let strkey = soroban_sdk::Bytes::from_slice(m.env(), &raw);
    let mut next = m.clone();
    next.set(soroban_sdk::Address::from_string_bytes(&strkey), row);
    next
}

} // verus!
