//! The concurrent worker registry, held in dashmap's sharded map.
//!
//! The map itself is opaque to the verifier; `registry_view` names what it
//! holds — each registered address, mapped to the address its stored handle
//! carries — and each operation the manager needs is a thin trusted wrapper
//! whose contract states, over that name, what dashmap's source shows.

use vstd::prelude::*;

use crate::model::WorkerHandle;

verus! {

/// Declares dashmap's sharded concurrent map for use in signatures and
/// fields.
#[verifier::external_type_specification]
#[verifier::external_body]
#[verifier::reject_recursive_types(K)]
#[verifier::reject_recursive_types(V)]
#[verifier::reject_recursive_types(S)]
pub struct ExDashMap<K, V, S>(dashmap::DashMap<K, V, S>);

/// What a registry map holds: each registered address, mapped to the
/// address carried by the handle stored under it.
pub uninterp spec fn registry_view(m: dashmap::DashMap<String, WorkerHandle>) -> Map<
    Seq<char>,
    Seq<char>,
>;

/// The set of worker addresses a registry map holds.
pub open spec fn registry_keys(m: dashmap::DashMap<String, WorkerHandle>) -> Set<Seq<char>> {
    registry_view(m).dom()
}

/// The view of a registry with nothing in it.
pub open spec fn spec_empty_registry_view() -> Map<Seq<char>, Seq<char>> {
    Map::empty()
}

/// The addresses occurring in a list of strings, as a set.
pub open spec fn spec_string_set(v: Seq<String>) -> Set<Seq<char>> {
    Set::new(|s: Seq<char>| exists|i: int| 0 <= i < v.len() && v[i]@ == s)
}

/// Whether `s` occurs in `v`.
pub fn vec_contains_string(v: &Vec<String>, s: &String) -> (r: bool)
    ensures
        r == spec_string_set(v@).contains(s@),
{
    let mut i: usize = 0;
    while i < v.len()
        invariant
            i <= v.len(),
            forall|j: int| 0 <= j < i ==> v@[j]@ != s@,
        decreases v.len() - i,
    {
        if v[i] == *s {
            return true;
        }
        i = i + 1;
    }
    false
}

/// Relies on dashmap::DashMap::new: creates an empty map.
#[verifier::external_body]
pub(crate) fn registry_new() -> (m: dashmap::DashMap<String, WorkerHandle>)
    ensures
        registry_view(m) == spec_empty_registry_view(),
{
    dashmap::DashMap::new()
}

/// Relies on dashmap::DashMap::insert: upserts the entry keyed `addr`,
/// which afterwards holds `handle`.
#[verifier::external_body]
pub(crate) fn registry_insert(
    m: &mut dashmap::DashMap<String, WorkerHandle>,
    addr: String,
    handle: WorkerHandle,
)
    ensures
        registry_view(*final(m)) == registry_view(*old(m)).insert(addr@, handle.address@),
{
    m.insert(addr, handle);
}

/// Relies on dashmap::DashMap::contains_key.
#[verifier::external_body]
pub fn registry_contains(m: &dashmap::DashMap<String, WorkerHandle>, addr: &str) -> (r: bool)
    ensures
        r == registry_keys(*m).contains(addr@),
{
    m.contains_key(addr)
}

/// Relies on dashmap::DashMap::len: the number of entries, each under a
/// distinct key.
#[verifier::external_body]
pub fn registry_len(m: &dashmap::DashMap<String, WorkerHandle>) -> (n: usize)
    ensures
        n == registry_keys(*m).len(),
{
    m.len()
}

/// Relies on dashmap::DashMap::retain: keeps exactly the entries for which
/// the predicate answers true, values untouched — here, the entries whose
/// key occurs in `active`.
#[verifier::external_body]
pub(crate) fn registry_retain_active(
    m: &mut dashmap::DashMap<String, WorkerHandle>,
    active: &Vec<String>,
)
    ensures
        registry_view(*final(m)) == registry_view(*old(m)).restrict(spec_string_set(active@)),
{
    m.retain(|k: &String, _v: &mut WorkerHandle| vec_contains_string(active, k));
}

} // verus!
