//! The slot store under a value arena: `slab::Slab`, with what the arena
//! relies on stated as contracts. Nothing here is proved: each contract
//! says what the slab's source shows.
//!
//! A slab is a vector of slots, each occupied or vacant. Its vacant slots
//! form a stack; an insertion fills the slot on top of the stack, or opens a
//! new slot at the end of the vector where the stack is empty.

use slab::Slab;
use vstd::prelude::*;

use crate::entry::Entry;

verus! {

/// `slab::Slab`, of which nothing is known but what the contracts below
/// say.
#[verifier::external_type_specification]
#[verifier::external_body]
#[verifier::reject_recursive_types(T)]
pub struct ExSlab<T>(slab::Slab<T>);

/// The occupied slots of a slab: each key with the value stored under it.
pub uninterp spec fn slab_entries(slab: Slab<Entry>) -> Map<int, Entry>;

/// The key that the next insertion into a slab will use: what
/// `Slab::vacant_key` returns.
pub uninterp spec fn slab_vacant_key(slab: Slab<Entry>) -> usize;

/// The number of slots of a slab, occupied and vacant: the length of its
/// vector of entries.
pub uninterp spec fn slab_slots(slab: Slab<Entry>) -> nat;

/// `Slab::new`: a slab without slots, whose first insertion will use key 0.
#[verifier::external_body]
pub(crate) fn slab_new() -> (made: Slab<Entry>)
    ensures
        slab_entries(made) =~= Map::empty(),
        slab_vacant_key(made) == 0,
        slab_slots(made) == 0,
{
    Slab::new()
}

/// `Slab::insert`: stores `entry` under the vacant key and returns that
/// key; every other slot keeps its value. The vacant key names a vacant
/// slot or, where there is none, the slot that the insertion opens at the
/// end; in that case the next vacant key is the one after it. Like
/// `Vec::push` the call aborts when memory runs out, which no contract
/// counts.
#[verifier::external_body]
pub(crate) fn slab_insert(slab: &mut Slab<Entry>, entry: Entry) -> (key: usize)
    ensures
        key == slab_vacant_key(*old(slab)),
        key <= slab_slots(*old(slab)),
        !slab_entries(*old(slab)).contains_key(key as int),
        slab_entries(*final(slab)) == slab_entries(*old(slab)).insert(key as int, entry),
        key < slab_slots(*old(slab)) ==> slab_slots(*final(slab)) == slab_slots(*old(slab)),
        key == slab_slots(*old(slab)) ==> slab_slots(*final(slab)) == key + 1
            && slab_vacant_key(*final(slab)) == key + 1,
{
    slab.insert(entry)
}

/// `Slab::try_remove`: takes the value under `key` out, if there is one,
/// and returns it. The released slot goes on top of the stack of vacant
/// slots, so `key` is then the vacant key; where nothing was stored under
/// `key`, nothing changes. No slot is opened or closed.
#[verifier::external_body]
pub(crate) fn slab_try_remove(slab: &mut Slab<Entry>, key: usize) -> (removed: Option<Entry>)
    ensures
        removed is Some <==> slab_entries(*old(slab)).contains_key(key as int),
        removed matches Some(entry) ==> entry == slab_entries(*old(slab))[key as int],
        removed is Some ==> key < slab_slots(*old(slab)),
        removed is Some ==> slab_vacant_key(*final(slab)) == key,
        removed is None ==> slab_vacant_key(*final(slab)) == slab_vacant_key(*old(slab)),
        slab_entries(*final(slab)) == slab_entries(*old(slab)).remove(key as int),
        slab_slots(*final(slab)) == slab_slots(*old(slab)),
{
    slab.try_remove(key)
}

/// `Slab::get_mut`: a reference to the value under `key`, if there is one.
/// What the caller leaves behind the reference is what the slot holds
/// afterwards; nothing else changes.
#[verifier::external_body]
pub(crate) fn slab_get_mut(slab: &mut Slab<Entry>, key: usize) -> (found: Option<&mut Entry>)
    ensures
        found is Some <==> slab_entries(*old(slab)).contains_key(key as int),
        match found {
            Some(entry) => *entry == slab_entries(*old(slab))[key as int] && slab_entries(
                *final(slab),
            ) == slab_entries(*old(slab)).insert(key as int, *final(entry)),
            None => slab_entries(*final(slab)) == slab_entries(*old(slab)),
        },
        slab_vacant_key(*final(slab)) == slab_vacant_key(*old(slab)),
        slab_slots(*final(slab)) == slab_slots(*old(slab)),
{
    slab.get_mut(key)
}

/// `Slab::clear`: drops every value and every slot. The next insertion
/// uses key 0 again.
#[verifier::external_body]
pub(crate) fn slab_clear(slab: &mut Slab<Entry>)
    ensures
        slab_entries(*final(slab)) =~= Map::empty(),
        slab_vacant_key(*final(slab)) == 0,
        slab_slots(*final(slab)) == 0,
{
    slab.clear()
}

} // verus!
