//! The concurrent map that holds a context's values, seen through the
//! operations the context uses.
//!
//! Every operation that changes the map takes it by `&mut`, so that what the
//! contracts say of its entries follows the value that holds it.

use vstd::prelude::*;
use dashmap::DashMap;
use crate::json::JsonValue;
use crate::session::{same_session, Session};

verus! {

#[verifier::external_type_specification]
#[verifier::external_body]
#[verifier::reject_recursive_types(K)]
#[verifier::reject_recursive_types(V)]
#[verifier::reject_recursive_types(S)]
pub struct ExDashMap<K, V, S>(DashMap<K, V, S>);

/// The entries of a value store, keyed by the characters of each key.
pub uninterp spec fn store_entries(m: DashMap<String, JsonValue>) -> Map<Seq<char>, JsonValue>;

/// The value stored under `key`, if any.
pub open spec fn lookup(m: Map<Seq<char>, JsonValue>, key: Seq<char>) -> Option<JsonValue> {
    if m.contains_key(key) {
        Some(m[key])
    } else {
        None
    }
}

/// Relies on `DashMap::new`: a new map holds no entries.
#[verifier::external_body]
pub(crate) fn store_new() -> (r: DashMap<String, JsonValue>)
    ensures
        store_entries(r) .dom() == Set::<Seq<char>>::empty(),
{
    DashMap::new()
}

/// Relies on `DashMap::insert`: afterwards `key` maps to `value`, and no other
/// entry has changed.
#[verifier::external_body]
pub(crate) fn store_insert(m: &mut DashMap<String, JsonValue>, key: String, value: JsonValue)
    ensures
        store_entries(*final(m)) == store_entries(*old(m)).insert(key@, value),
{
    m.insert(key, value);
}

/// Relies on `DashMap::get`: it finds the entry of `key`, if there is one; the
/// value is handed out as a clone.
#[verifier::external_body]
pub(crate) fn store_get(m: &DashMap<String, JsonValue>, key: &str) -> (r: Option<JsonValue>)
    ensures
        r == lookup(store_entries(*m), key@),
{
    m.get(key).map(|entry| entry.value().clone())
}

/// Relies on `DashMap::remove`: it takes the entry of `key` out, if there is
/// one, and hands its value back.
#[verifier::external_body]
pub(crate) fn store_remove(m: &mut DashMap<String, JsonValue>, key: &str) -> (r: Option<JsonValue>)
    ensures
        r == lookup(store_entries(*old(m)), key@),
        store_entries(*final(m)) == store_entries(*old(m)).remove(key@),
{
    m.remove(key).map(|(_, value)| value)
}

/// Relies on `DashMap::clear`: no entry is left.
#[verifier::external_body]
pub(crate) fn store_clear(m: &mut DashMap<String, JsonValue>)
    ensures
        store_entries(*final(m)) .dom() == Set::<Seq<char>>::empty(),
{
    m.clear();
}

/// Relies on `DashMap::iter`: it visits every entry once, in an order that
/// the map does not promise; each key and value is handed out as a clone.
#[verifier::external_body]
pub(crate) fn store_list(m: &DashMap<String, JsonValue>) -> (r: Vec<(String, JsonValue)>)
    ensures
        forall|i: int|
            0 <= i < r@.len() ==> #[trigger] store_entries(*m).contains_key(r@[i].0@)
                && store_entries(*m)[r@[i].0@] == r@[i].1,
        forall|k: Seq<char>|
            #[trigger] store_entries(*m).contains_key(k) ==> exists|i: int|
                0 <= i < r@.len() && r@[i].0@ == k,
        forall|i: int, j: int| 0 <= i < j < r@.len() ==> r@[i].0@ != r@[j].0@,
{
    m.iter().map(|entry| (entry.key().clone(), entry.value().clone())).collect()
}

/// The sessions of a session store, keyed by the characters of each id.
pub uninterp spec fn session_entries(m: DashMap<String, Session>) -> Map<Seq<char>, Session>;

/// Relies on `DashMap::new`: a new map holds no entries.
#[verifier::external_body]
pub(crate) fn sessions_new() -> (r: DashMap<String, Session>)
    ensures
        session_entries(r).dom() == Set::<Seq<char>>::empty(),
{
    DashMap::new()
}

/// Relies on `DashMap::insert`: afterwards `key` maps to `session`, and no
/// other entry has changed.
#[verifier::external_body]
pub(crate) fn sessions_insert(m: &mut DashMap<String, Session>, key: String, session: Session)
    ensures
        session_entries(*final(m)) == session_entries(*old(m)).insert(key@, session),
{
    m.insert(key, session);
}

/// Relies on `DashMap::get`: it finds the entry of `key`, if there is one; the
/// session is handed out as a copy made by [`Session::duplicate`].
#[verifier::external_body]
pub(crate) fn sessions_get(m: &DashMap<String, Session>, key: &str) -> (r: Option<Session>)
    ensures
        r is Some <==> session_entries(*m).contains_key(key@),
        r is Some ==> same_session(r.unwrap(), session_entries(*m)[key@]),
{
    m.get(key).map(|entry| entry.value().duplicate())
}

/// Relies on `DashMap::remove`: it takes the entry of `key` out, if there is
/// one.
#[verifier::external_body]
pub(crate) fn sessions_remove(m: &mut DashMap<String, Session>, key: &str)
    ensures
        session_entries(*final(m)) == session_entries(*old(m)).remove(key@),
{
    m.remove(key);
}

} // verus!
