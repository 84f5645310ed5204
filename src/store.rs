//! The registry of open sessions. The token interface passes only integer
//! handles, so the library keeps each session's state under its handle. The
//! registry is generic in what it keeps, so that a caller can wrap each
//! session in its own lock.
use std::collections::HashMap;

use vstd::prelude::*;

verus! {

broadcast use vstd::std_specs::hash::group_hash_axioms;

/// Open sessions by handle.
pub struct Registry<T> {
    sessions: HashMap<u64, T>,
}

impl<T> View for Registry<T> {
    type V = Map<u64, T>;

    closed spec fn view(&self) -> Map<u64, T> {
        self.sessions@
    }
}

impl<T> Registry<T> {
    /// A registry with no session.
    pub fn empty() -> (r: Registry<T>)
        ensures
            r@ == Map::<u64, T>::empty(),
    {
        Registry { sessions: HashMap::new() }
    }
}

/// Opens a session under the smallest handle not in use. Returns `None`,
/// changing nothing, only where every handle below `u64::MAX` is in use.
pub fn new<T>(reg: &mut Registry<T>, state: T) -> (r: Option<u64>)
    ensures
        r matches Some(h) ==> {
            &&& !old(reg)@.contains_key(h)
            &&& forall|g: u64| g < h ==> old(reg)@.contains_key(g)
            &&& final(reg)@ == old(reg)@.insert(h, state)
        },
        r is None ==> final(reg)@ == old(reg)@ && forall|g: u64|
            g < u64::MAX ==> old(reg)@.contains_key(g),
{
    let mut h: u64 = 0;
    while h < u64::MAX
        invariant
            reg@ == old(reg)@,
            forall|g: u64| g < h ==> reg@.contains_key(g),
        decreases u64::MAX - h,
    {
        if reg.sessions.contains_key(&h) {
            h = h + 1;
        } else {
            reg.sessions.insert(h, state);
            return Some(h);
        }
    }
    None
}

/// Returns the session with the given handle.
pub fn get<T>(reg: &Registry<T>, handle: u64) -> (r: Option<&T>)
    ensures
        r is Some <==> reg@.contains_key(handle),
        r matches Some(t) ==> *t == reg@[handle],
{
    reg.sessions.get(&handle)
}

/// Removes the session with the given handle and returns it.
pub fn remove<T>(reg: &mut Registry<T>, handle: u64) -> (r: Option<T>)
    ensures
        r is Some <==> old(reg)@.contains_key(handle),
        r matches Some(t) ==> t == old(reg)@[handle],
        final(reg)@ == old(reg)@.remove(handle),
{
    reg.sessions.remove(&handle)
}

/// Returns the number of open sessions.
pub fn count<T>(reg: &Registry<T>) -> (r: usize)
    ensures
        r == reg@.len(),
{
    reg.sessions.len()
}

} // verus!
