//! The concurrent maps that hold session state.
//!
//! Every map is reached through an exclusive reference where it changes, so
//! that what it holds between two calls is what the last call left.

use vstd::prelude::*;

use crate::sticky::router::AffinityEntry;
use crate::time::Instant;

verus! {

/// Opaque: the concurrent hash map of `dashmap`.
#[verifier::external_type_specification]
#[verifier::external_body]
#[verifier::reject_recursive_types(K)]
#[verifier::reject_recursive_types(V)]
#[verifier::reject_recursive_types(S)]
pub struct ExDashMap<K, V, S>(dashmap::DashMap<K, V, S>);

/// What a map from session to affinity entry holds.
pub uninterp spec fn affinity_entries(table: dashmap::DashMap<String, AffinityEntry>) -> Map<
    Seq<char>,
    AffinityEntry,
>;

/// `DashMap::new`: an empty map.
#[verifier::external_body]
pub(crate) fn entries_new() -> (fresh: dashmap::DashMap<String, AffinityEntry>)
    ensures
        (affinity_entries(fresh) == Map::<Seq<char>, AffinityEntry>::empty()),
{
    dashmap::DashMap::new()
}

/// `DashMap::get`, copied out: the entry stored under the key.
#[verifier::external_body]
pub(crate) fn entries_get(table: &dashmap::DashMap<String, AffinityEntry>, key: &str) -> (entry:
    Option<AffinityEntry>)
    ensures
        match entry {
            Some(found) => affinity_entries(*table).contains_key(key@)
                && found == affinity_entries(*table)[key@],
            None => !affinity_entries(*table).contains_key(key@),
        },
{
    table.get(key).map(|entry| *entry)
}

/// `DashMap::insert`: the entry under the key is replaced or added, and no
/// other entry changes.
#[verifier::external_body]
pub(crate) fn entries_insert(
    table: &mut dashmap::DashMap<String, AffinityEntry>,
    key: String,
    entry: AffinityEntry,
)
    ensures
        affinity_entries(*final(table)) == affinity_entries(*old(table)).insert(key@, entry),
{
    table.insert(key, entry);
}

/// `DashMap::remove`: the entry under the key is taken out and handed back, and
/// no other entry changes.
#[verifier::external_body]
pub(crate) fn entries_remove(
    table: &mut dashmap::DashMap<String, AffinityEntry>,
    key: &str,
) -> (entry: Option<AffinityEntry>)
    ensures
        affinity_entries(*final(table)) == affinity_entries(*old(table)).remove(key@),
        match entry {
            Some(found) => affinity_entries(*old(table)).contains_key(key@)
                && found == affinity_entries(*old(table))[key@],
            None => !affinity_entries(*old(table)).contains_key(key@),
        },
{
    table.remove(key).map(|(_, entry)| entry)
}

/// `DashMap::iter`, copied out: every entry once, in no particular order.
#[verifier::external_body]
pub(crate) fn entries_list(table: &dashmap::DashMap<String, AffinityEntry>) -> (listed: Vec<
    (String, AffinityEntry),
>)
    ensures
        forall|i: int|
            #![trigger listed@[i]]
            0 <= i < listed@.len() ==> affinity_entries(*table).contains_key(listed@[i].0@)
                && affinity_entries(*table)[listed@[i].0@] == listed@[i].1,
        forall|key: Seq<char>| #[trigger]
            affinity_entries(*table).contains_key(key) ==> exists|i: int|
                0 <= i < listed@.len() && (#[trigger] listed@[i]).0@ == key,
        forall|i: int, j: int|
            #![trigger listed@[i], listed@[j]]
            0 <= i < j < listed@.len() ==> listed@[i].0@ != listed@[j].0@,
{
    table.iter().map(|entry| (entry.key().clone(), *entry.value())).collect()
}

/// `DashMap::retain` with the test whether a binding is alive: the entries that
/// pass the test stay as they are, and the others go.
#[verifier::external_body]
pub(crate) fn entries_retain_alive(
    table: &mut dashmap::DashMap<String, AffinityEntry>,
    now: Instant,
)
    ensures
        forall|key: Seq<char>| #[trigger]
            affinity_entries(*final(table)).contains_key(key) <==> affinity_entries(
                *old(table),
            ).contains_key(key) && affinity_entries(*old(table))[key].alive(now),
        forall|key: Seq<char>| #[trigger]
            affinity_entries(*final(table)).contains_key(key) ==> affinity_entries(
                *final(table),
            )[key] == affinity_entries(*old(table))[key],
{
    table.retain(|_, entry| entry.is_alive(now))
}

/// What a map from session to point in time holds.
pub uninterp spec fn stamp_entries(table: dashmap::DashMap<String, Instant>) -> Map<
    Seq<char>,
    Instant,
>;

/// `DashMap::new`: an empty map.
#[verifier::external_body]
pub(crate) fn stamps_new() -> (fresh: dashmap::DashMap<String, Instant>)
    ensures
        (stamp_entries(fresh) == Map::<Seq<char>, Instant>::empty()),
{
    dashmap::DashMap::new()
}

/// `DashMap::get`, copied out: the point in time stored under the key.
#[verifier::external_body]
pub(crate) fn stamps_get(table: &dashmap::DashMap<String, Instant>, key: &str) -> (stamp: Option<
    Instant,
>)
    ensures
        match stamp {
            Some(found) => stamp_entries(*table).contains_key(key@)
                && found == stamp_entries(*table)[key@],
            None => !stamp_entries(*table).contains_key(key@),
        },
{
    table.get(key).map(|entry| *entry)
}

/// `DashMap::insert`: the point in time under the key is replaced or added, and
/// no other entry changes.
#[verifier::external_body]
pub(crate) fn stamps_insert(
    table: &mut dashmap::DashMap<String, Instant>,
    key: String,
    stamp: Instant,
)
    ensures
        stamp_entries(*final(table)) == stamp_entries(*old(table)).insert(key@, stamp),
{
    table.insert(key, stamp);
}

/// What a map from session to number of rebinds holds.
pub uninterp spec fn count_entries(table: dashmap::DashMap<String, u32>) -> Map<Seq<char>, u32>;

/// `DashMap::new`: an empty map.
#[verifier::external_body]
pub(crate) fn counts_new() -> (fresh: dashmap::DashMap<String, u32>)
    ensures
        (count_entries(fresh) == Map::<Seq<char>, u32>::empty()),
{
    dashmap::DashMap::new()
}

/// `DashMap::get`, copied out: the number stored under the key.
#[verifier::external_body]
pub(crate) fn counts_get(table: &dashmap::DashMap<String, u32>, key: &str) -> (count: Option<u32>)
    ensures
        match count {
            Some(found) => count_entries(*table).contains_key(key@)
                && found == count_entries(*table)[key@],
            None => !count_entries(*table).contains_key(key@),
        },
{
    table.get(key).map(|entry| *entry)
}

/// `DashMap::insert`: the number under the key is replaced or added, and no
/// other entry changes.
#[verifier::external_body]
pub(crate) fn counts_insert(table: &mut dashmap::DashMap<String, u32>, key: String, count: u32)
    ensures
        count_entries(*final(table)) == count_entries(*old(table)).insert(key@, count),
{
    table.insert(key, count);
}

/// What a map from session to the request that owns its turn holds.
pub uninterp spec fn owner_entries(table: dashmap::DashMap<String, String>) -> Map<
    Seq<char>,
    Seq<char>,
>;

/// `DashMap::new`: an empty map.
#[verifier::external_body]
pub(crate) fn owners_new() -> (fresh: dashmap::DashMap<String, String>)
    ensures
        (owner_entries(fresh) == Map::<Seq<char>, Seq<char>>::empty()),
{
    dashmap::DashMap::new()
}

/// `DashMap::get`, copied out: the owner stored under the key.
#[verifier::external_body]
pub(crate) fn owners_get(table: &dashmap::DashMap<String, String>, key: &str) -> (owner: Option<
    String,
>)
    ensures
        match owner {
            Some(found) => owner_entries(*table).contains_key(key@)
                && found@ == owner_entries(*table)[key@],
            None => !owner_entries(*table).contains_key(key@),
        },
{
    table.get(key).map(|entry| entry.value().clone())
}

/// `DashMap::insert`: the owner under the key is replaced or added, and no
/// other entry changes.
#[verifier::external_body]
pub(crate) fn owners_insert(
    table: &mut dashmap::DashMap<String, String>,
    key: String,
    owner: String,
)
    ensures
        owner_entries(*final(table)) == owner_entries(*old(table)).insert(key@, owner@),
{
    table.insert(key, owner);
}

/// `DashMap::remove`: the owner under the key is taken out, and no other entry
/// changes.
#[verifier::external_body]
pub(crate) fn owners_remove(table: &mut dashmap::DashMap<String, String>, key: &str)
    ensures
        owner_entries(*final(table)) == owner_entries(*old(table)).remove(key@),
{
    table.remove(key);
}

} // verus!
