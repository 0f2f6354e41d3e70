//! What the entity-component store needs of a hash map beyond what the
//! standard specifications give.

use vstd::prelude::*;
use std::collections::HashMap;
use vstd::std_specs::hash::spec_keys_iter;
use vstd::std_specs::iter::IteratorSpec;

verus! {

/// The keys of `m`, each once, in the order in which the map walks them.
pub fn keys_of<V>(m: &HashMap<u64, V>) -> (out: Vec<u64>)
    ensures
        out@.to_set() == m@.dom(),
        out@.no_duplicates(),
        out@.len() == m@.dom().len(),
{
    let mut out: Vec<u64> = Vec::new();
    let ghost all = spec_keys_iter(m).remaining();
    for k in it: m.keys()
        invariant
            it.seq() == all,
            out@ == all.unref().take(it.index()),
    {
        out.push(*k);
    }
    proof {
        assert(out@ =~= all.unref());
        assert forall|i: int, j: int|
            0 <= i < out@.len() && 0 <= j < out@.len() && i != j implies out@[i] != out@[j] by {
            assert(all[i] != all[j]);
        }
    }
    out
}

/// `HashMap::get_mut`: a mutable reference to the value at `key`, or
/// `None` where the map has no such key. Nothing else in the map changes,
/// and whatever is written through the reference is the value at `key`
/// afterwards.
#[verifier::external_body]
pub(crate) fn value_mut<'a, V>(m: &'a mut HashMap<u64, V>, key: u64) -> (slot: Option<&'a mut V>)
    ensures
        match slot {
            Some(value) => {
                &&& old(m)@.contains_key(key)
                &&& *value == old(m)@[key]
                &&& final(m)@ == old(m)@.insert(key, *final(value))
            },
            None => !old(m)@.contains_key(key) && final(m)@ == old(m)@,
        },
{
    m.get_mut(&key)
}

} // verus!
