//! The ordered slot-to-name map that holds an argument's value names.
//!
//! The map itself comes from the `vec_map` crate; this module declares it to
//! the verifier and gives its contents a name, a sequence of key/name pairs
//! in ascending key order, over which the wrappers below state what each
//! operation does.

use vstd::prelude::*;

verus! {

#[verifier::external_type_specification]
#[verifier::external_body]
#[verifier::reject_recursive_types(V)]
pub struct ExVecMap<V>(vec_map::VecMap<V>);

/// The entries of a `VecMap<String>`, in ascending key order: entry `i` pairs
/// a key with the characters of the name stored under it.
pub uninterp spec fn vm_entries(m: vec_map::VecMap<String>) -> Seq<(int, Seq<char>)>;

/// Relies on vec_map::VecMap::new: the new map has no entries.
#[verifier::external_body]
pub fn vm_new() -> (r: vec_map::VecMap<String>)
    ensures
        vm_entries(r) == Seq::<(int, Seq<char>)>::empty(),
{
    vec_map::VecMap::new()
}

/// Relies on vec_map::VecMap::len: it returns the number of entries.
#[verifier::external_body]
pub fn vm_len(m: &vec_map::VecMap<String>) -> (r: usize)
    ensures
        r as int == vm_entries(*m).len(),
{
    m.len()
}

/// Relies on vec_map::VecMap::insert: a key above every present key is new,
/// so the entry lands at the end of the ascending key order and nothing was
/// displaced.
#[verifier::external_body]
pub fn vm_insert_top(m: &mut vec_map::VecMap<String>, key: usize, value: String)
    requires
        forall|i: int|
            0 <= i < vm_entries(*old(m)).len() ==> vm_entries(*old(m))[i].0 < key as int,
    ensures
        vm_entries(*final(m)) == vm_entries(*old(m)).push((key as int, value@)),
{
    m.insert(key, value);
}

/// Relies on vec_map::VecMap::values: it visits the stored names in ascending
/// key order.
#[verifier::external_body]
pub fn vm_values(m: &vec_map::VecMap<String>) -> (r: Vec<String>)
    ensures
        r@.len() == vm_entries(*m).len(),
        forall|i: int| 0 <= i < r@.len() ==> r@[i]@ == vm_entries(*m)[i].1,
{
    m.values().cloned().collect()
}

/// Relies on vec_map::VecMap::clone: the clone holds the same entries, with
/// each stored `String` cloned, so it is the same map value.
#[verifier::external_body]
pub fn vm_clone(m: &vec_map::VecMap<String>) -> (r: vec_map::VecMap<String>)
    ensures
        r == *m,
{
    m.clone()
}

} // verus!
