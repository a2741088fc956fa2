//! The value arena: every value that crosses the plugin boundary lives in
//! one, under an integer handle. The free functions are the entries of the
//! table of value operations that a plugin is handed: each takes what the
//! plugin passed, with `None` where it passed a null pointer.

use slab::Slab;
use vstd::prelude::*;
use vstd::utf8::{decode_utf8, valid_utf8};

use crate::abi::{ResultCode, ValueId, FAILURE, SUCCESS};
use crate::entry::{lemma_value_of_stored, value_of, with_field, Entry, EntryMap, EntryView};
use crate::store::{
    slab_clear, slab_entries, slab_get_mut, slab_insert, slab_new, slab_slots, slab_try_remove,
    slab_vacant_key,
};
use crate::text::decode_text;

verus! {

/// The handle under which the slot `key` is known to a plugin: the key cut
/// down to the handle's 32 bits.
pub open spec fn handle_of(key: usize) -> ValueId {
    key as ValueId
}

/// The slot that a handle names: the handle widened to a slot key, its sign
/// extended.
pub open spec fn slot_of(id: ValueId) -> usize {
    id as usize
}

/// An arena of values. Its view maps each occupied slot to the model of the
/// value stored there.
pub struct Values {
    values: Slab<Entry>,
}

/// The arena under the name by which a plugin's entry point knows it: the
/// place where it builds its module.
pub type ModuleBuilder = Values;

impl View for Values {
    type V = Map<int, EntryView>;

    closed spec fn view(&self) -> Map<int, EntryView> {
        slab_entries(self.values).map_values(|entry: Entry| entry@)
    }
}

impl Values {
    /// The slot that the next insertion will fill.
    pub closed spec fn next_key(&self) -> usize {
        slab_vacant_key(self.values)
    }

    /// The number of slots that the arena has opened, occupied or not. An
    /// insertion fills a slot below this number or opens the slot at it.
    pub closed spec fn span(&self) -> nat {
        slab_slots(self.values)
    }

    /// Whether the slot that the arena fills next has a handle of its own:
    /// the arena has opened at most `i32::MAX` slots, so the key of that slot
    /// is a handle as it stands.
    pub open spec fn fits(&self) -> bool {
        self.span() <= i32::MAX
    }

    /// The value that a handle names, if it names one.
    pub open spec fn lookup(&self, id: ValueId) -> Option<EntryView> {
        if self@.contains_key(slot_of(id) as int) {
            Some(self@[slot_of(id) as int])
        } else {
            None
        }
    }

    /// What an insertion does: `after` is this arena with `entry` in the
    /// slot that was next, a slot that was vacant, and `id` is that slot's
    /// handle. Where the slot is a new one, the one after it is next.
    pub open spec fn inserts(&self, entry: EntryView, after: &Values, id: ValueId) -> bool {
        &&& id == handle_of(self.next_key())
        &&& self.next_key() <= self.span()
        &&& !self@.contains_key(self.next_key() as int)
        &&& after@ =~= self@.insert(self.next_key() as int, entry)
        &&& self.next_key() < self.span() ==> after.span() == self.span()
        &&& self.next_key() == self.span() ==> after.span() == self.span() + 1
            && after.next_key() == self.next_key() + 1
    }

    /// What taking `id` does: `taken` is the value that `id` named, `after`
    /// is this arena without it, and the slot of a value that was taken is
    /// the next to be filled. No slot is opened.
    pub open spec fn takes(&self, id: ValueId, after: &Values, taken: Option<EntryView>) -> bool {
        &&& taken == self.lookup(id)
        &&& after@ =~= self@.remove(slot_of(id) as int)
        &&& after.next_key() == if taken is Some {
            slot_of(id)
        } else {
            self.next_key()
        }
        &&& taken is Some ==> slot_of(id) < self.span()
        &&& after.span() == self.span()
    }

    /// Whether the value under `value_id` can move into a map under
    /// `map_id`: both handles name values, they are not the same handle, and
    /// the second names a map.
    pub open spec fn accepts(&self, map_id: ValueId, value_id: ValueId) -> bool {
        &&& self@.contains_key(slot_of(value_id) as int)
        &&& slot_of(map_id) != slot_of(value_id)
        &&& self@.contains_key(slot_of(map_id) as int)
        &&& self@[slot_of(map_id) as int] is Mapping
    }

    /// What a map insertion does. Where the arena accepts the two handles,
    /// the value leaves its slot, which is then the next to be filled, and
    /// the map holds the value under `key`; where it does not, every slot
    /// holds what it held.
    pub open spec fn map_inserts(
        &self,
        map_id: ValueId,
        key: Seq<char>,
        value_id: ValueId,
        after: &Values,
        done: bool,
    ) -> bool {
        &&& done == self.accepts(map_id, value_id)
        &&& after@ =~= if done {
            self@.remove(slot_of(value_id) as int).insert(
                slot_of(map_id) as int,
                EntryView::Mapping(
                    with_field(
                        self@[slot_of(map_id) as int]->Mapping_0,
                        key,
                        self@[slot_of(value_id) as int],
                    ),
                ),
            )
        } else {
            self@
        }
        &&& done ==> after.next_key() == slot_of(value_id)
        &&& self.lookup(value_id) is None ==> after.next_key() == self.next_key()
        &&& after.span() == self.span()
    }

    /// An empty arena.
    pub fn new() -> (arena: Values)
        ensures
            arena@ == Map::<int, EntryView>::empty(),
            arena.next_key() == 0,
            arena.span() == 0,
    {
        Values { values: slab_new() }
    }

    /// Stores `entry` in the next vacant slot and returns that slot's
    /// handle.
    pub fn insert(&mut self, entry: Entry) -> (id: ValueId)
        ensures
            old(self).inserts(entry@, final(self), id),
    {
        let key: usize = slab_insert(&mut self.values, entry);
        #[verifier::truncate]
        (key as ValueId)
    }

    /// Stores a string.
    pub fn create_str(&mut self, value: &str) -> (id: ValueId)
        ensures
            old(self).inserts(EntryView::Str(value@), final(self), id),
    {
        self.insert(Entry::Str(value.to_owned()))
    }

    /// Stores the number whose IEEE-754 bit pattern is `bits`.
    pub fn create_number(&mut self, bits: u64) -> (id: ValueId)
        ensures
            old(self).inserts(EntryView::Number(bits), final(self), id),
    {
        self.insert(Entry::Number(bits))
    }

    /// Stores the plugin function at address `func`.
    pub fn create_native_function(&mut self, func: usize) -> (id: ValueId)
        ensures
            old(self).inserts(EntryView::NativeFunction(func), final(self), id),
    {
        self.insert(Entry::NativeFunction(func))
    }

    /// Stores an empty map.
    pub fn create_map(&mut self) -> (id: ValueId)
        ensures
            old(self).inserts(EntryView::Mapping(Seq::empty()), final(self), id),
    {
        self.insert(Entry::Mapping(EntryMap::new()))
    }

    /// A reference to the value that `id` names, through which the caller
    /// may change it in place.
    pub fn get_mut(&mut self, id: ValueId) -> (found: Option<&mut Entry>)
        ensures
            match found {
                Some(entry) => old(self).lookup(id) == Some(entry@) && final(self)@ == old(
                    self,
                )@.insert(slot_of(id) as int, final(entry)@),
                None => old(self).lookup(id) is None && final(self)@ == old(self)@,
            },
            final(self).next_key() == old(self).next_key(),
            final(self).span() == old(self).span(),
    {
        let key: usize = #[verifier::truncate]
        (id as usize);
        slab_get_mut(&mut self.values, key)
    }

    /// Moves the value that `value_id` names into the map that `map_id`
    /// names, under `key`. A key that the map holds already keeps its place
    /// and gets the new value. Where either handle names nothing, or
    /// `map_id` names no map, the call fails and the arena holds what it
    /// held: a value that was taken out of its slot is put back.
    pub fn map_insert(&mut self, map_id: ValueId, key: &str, value_id: ValueId) -> (done: Result<
        (),
        (),
    >)
        ensures
            old(self).map_inserts(map_id, key@, value_id, final(self), done is Ok),
    {
        let value = match self.take_value(value_id) {
            Some(value) => value,
            None => {
                return Err(());
            },
        };
        match self.get_mut(map_id) {
            Some(Entry::Mapping(map)) => {
                map.insert(key, value);
                Ok(())
            },
            _ => {
                self.insert(value);
                Err(())
            },
        }
    }

    /// Removes the value that `id` names and returns it; `None`, and no
    /// change, where `id` names nothing.
    pub fn take_value(&mut self, id: ValueId) -> (taken: Option<Entry>)
        ensures
            old(self).takes(
                id,
                final(self),
                match taken {
                    Some(entry) => Some(entry@),
                    None => None,
                },
            ),
    {
        let key: usize = #[verifier::truncate]
        (id as usize);
        slab_try_remove(&mut self.values, key)
    }

    /// Releases every value and every slot: no handle names anything
    /// afterwards.
    pub fn clear(&mut self)
        ensures
            final(self)@ == Map::<int, EntryView>::empty(),
            final(self).next_key() == 0,
            final(self).span() == 0,
    {
        slab_clear(&mut self.values);
    }
}

impl Default for Values {
    fn default() -> (arena: Values)
        ensures
            arena@ == Map::<int, EntryView>::empty(),
            arena.next_key() == 0,
            arena.span() == 0,
    {
        Values::new()
    }
}

/// Table entry: a new null value. `0` where there is no arena.
pub fn create_null(values: Option<&mut Values>) -> (id: ValueId)
    ensures
        match values {
            Some(arena) => arena.inserts(EntryView::Null, final(arena), id),
            None => id == 0,
        },
{
    match values {
        Some(arena) => arena.insert(Entry::Null),
        None => 0,
    }
}

/// Table entry: a new boolean, true for any `value` but zero. `0` where
/// there is no arena.
pub fn create_bool(values: Option<&mut Values>, value: i8) -> (id: ValueId)
    ensures
        match values {
            Some(arena) => arena.inserts(EntryView::Bool(value != 0), final(arena), id),
            None => id == 0,
        },
{
    match values {
        Some(arena) => arena.insert(Entry::Bool(value != 0)),
        None => 0,
    }
}

/// Table entry: a new number with the IEEE-754 bit pattern `bits`. `0`
/// where there is no arena.
pub fn create_number(values: Option<&mut Values>, bits: u64) -> (id: ValueId)
    ensures
        match values {
            Some(arena) => arena.inserts(EntryView::Number(bits), final(arena), id),
            None => id == 0,
        },
{
    match values {
        Some(arena) => arena.create_number(bits),
        None => 0,
    }
}

/// Table entry: a new string, from the bytes of a C string without its
/// terminator. `0`, and no change, where there is no arena, no string, or
/// the bytes are not valid UTF-8.
pub fn create_str(values: Option<&mut Values>, value: Option<&[u8]>) -> (id: ValueId)
    ensures
        match values {
            Some(arena) => match value {
                Some(bytes) if valid_utf8(bytes@) => arena.inserts(
                    EntryView::Str(decode_utf8(bytes@)),
                    final(arena),
                    id,
                ),
                _ => id == 0 && *final(arena) == *arena,
            },
            None => id == 0,
        },
{
    match (values, value) {
        (Some(arena), Some(bytes)) => match decode_text(bytes) {
            Some(text) => arena.create_str(text),
            None => 0,
        },
        _ => 0,
    }
}

/// Table entry: a new empty map. `-1` where there is no arena.
pub fn create_map(values: Option<&mut Values>) -> (id: ValueId)
    ensures
        match values {
            Some(arena) => arena.inserts(EntryView::Mapping(Seq::empty()), final(arena), id),
            None => id == -1,
        },
{
    match values {
        Some(arena) => arena.create_map(),
        None => -1,
    }
}

/// Table entry: a new native function for the plugin code at address
/// `func`. `-1`, and no change, where there is no arena or `func` is null.
pub fn create_native_function(values: Option<&mut Values>, func: usize) -> (id: ValueId)
    ensures
        match values {
            Some(arena) => if func != 0 {
                arena.inserts(EntryView::NativeFunction(func), final(arena), id)
            } else {
                id == -1 && *final(arena) == *arena
            },
            None => id == -1,
        },
{
    match values {
        Some(arena) => {
            if func != 0 {
                arena.create_native_function(func)
            } else {
                -1
            }
        },
        None => -1,
    }
}

/// Table entry: moves the value under `value` into the map under `map`,
/// with the key given as the bytes of a C string. `FAILURE`, with every slot
/// holding what it held, where there is no arena, no key, the key is not
/// valid UTF-8, or the arena does not accept the handles; else `SUCCESS`.
pub fn map_insert(
    values: Option<&mut Values>,
    map: ValueId,
    key: Option<&[u8]>,
    value: ValueId,
) -> (code: ResultCode)
    ensures
        code == SUCCESS || code == FAILURE,
        match values {
            Some(arena) => match key {
                Some(bytes) if valid_utf8(bytes@) => arena.map_inserts(
                    map,
                    decode_utf8(bytes@),
                    value,
                    final(arena),
                    code == SUCCESS,
                ),
                _ => code == FAILURE && *final(arena) == *arena,
            },
            None => code == FAILURE,
        },
{
    match (values, key) {
        (Some(arena), Some(bytes)) => match decode_text(bytes) {
            Some(text) => match arena.map_insert(map, text, value) {
                Ok(_) => SUCCESS,
                Err(_) => FAILURE,
            },
            None => FAILURE,
        },
        _ => FAILURE,
    }
}

/// A handle that an insertion returned names the inserted value: taking it
/// next returns that value and leaves every slot as it was before the
/// insertion. This holds of an arena that fits its handles.
pub proof fn lemma_take_after_insert(
    before: Values,
    entry: EntryView,
    between: Values,
    id: ValueId,
    after: Values,
    taken: Option<EntryView>,
)
    requires
        before.inserts(entry, &between, id),
        between.takes(id, &after, taken),
        before.fits(),
    ensures
        taken == Some(entry),
        after@ == before@,
{
}

/// A number comes out of the arena as it went in, bit for bit.
pub proof fn lemma_number_round_trip(
    before: Values,
    bits: u64,
    between: Values,
    id: ValueId,
    after: Values,
    taken: Option<EntryView>,
)
    requires
        before.inserts(EntryView::Number(bits), &between, id),
        between.takes(id, &after, taken),
        before.fits(),
    ensures
        taken == Some(EntryView::Number(bits)),
{
    lemma_take_after_insert(before, EntryView::Number(bits), between, id, after, taken);
}

/// A string comes out of the arena as it went in, character for
/// character.
pub proof fn lemma_string_round_trip(
    before: Values,
    text: Seq<char>,
    between: Values,
    id: ValueId,
    after: Values,
    taken: Option<EntryView>,
)
    requires
        before.inserts(EntryView::Str(text), &between, id),
        between.takes(id, &after, taken),
        before.fits(),
    ensures
        taken == Some(EntryView::Str(text)),
{
    lemma_take_after_insert(before, EntryView::Str(text), between, id, after, taken);
}

/// Taking a handle twice in a row yields nothing the second time, and a
/// handle that names a value yields it the first time.
pub proof fn lemma_take_twice(
    before: Values,
    id: ValueId,
    between: Values,
    first: Option<EntryView>,
    after: Values,
    second: Option<EntryView>,
)
    requires
        before.takes(id, &between, first),
        between.takes(id, &after, second),
    ensures
        second is None,
        before.lookup(id) is Some ==> first is Some,
        after@ == between@,
{
}

/// A map insertion that fails loses nothing: a value that `value_id` named
/// before the call is named by a handle after it, and by `value_id` itself.
pub proof fn lemma_failed_map_insert_keeps_value(
    before: Values,
    map_id: ValueId,
    key: Seq<char>,
    value_id: ValueId,
    after: Values,
)
    requires
        before.map_inserts(map_id, key, value_id, &after, false),
        before.lookup(value_id) is Some,
    ensures
        after.lookup(value_id) == before.lookup(value_id),
        exists|id: ValueId| after.lookup(id) == before.lookup(value_id),
{
}

/// A map insertion that succeeds uses up the value's handle, and the map
/// then yields the value under the key.
pub proof fn lemma_map_insert_moves_value(
    before: Values,
    map_id: ValueId,
    key: Seq<char>,
    value_id: ValueId,
    after: Values,
)
    requires
        before.map_inserts(map_id, key, value_id, &after, true),
    ensures
        after.lookup(value_id) is None,
        after.lookup(map_id) matches Some(EntryView::Mapping(fields)) && value_of(fields, key)
            == before.lookup(value_id),
{
    lemma_value_of_stored(
        before@[slot_of(map_id) as int]->Mapping_0,
        key,
        before@[slot_of(value_id) as int],
    );
}

/// Two handles that name the same slot are the same handle: an entry has
/// at most one handle.
pub proof fn lemma_one_handle_per_slot(a: ValueId, b: ValueId)
    requires
        slot_of(a) == slot_of(b),
    ensures
        a == b,
{
    assert(a as usize == b as usize ==> a == b) by (bit_vector);
}

/// A handle stays valid across an insertion: what a handle named before
/// it, it names after it.
pub proof fn lemma_insert_spares_others(
    before: Values,
    entry: EntryView,
    after: Values,
    id: ValueId,
    other: ValueId,
)
    requires
        before.inserts(entry, &after, id),
        before.lookup(other) is Some,
    ensures
        after.lookup(other) == before.lookup(other),
{
}

/// A handle stays valid when another is taken.
pub proof fn lemma_take_spares_others(
    before: Values,
    id: ValueId,
    after: Values,
    taken: Option<EntryView>,
    other: ValueId,
)
    requires
        before.takes(id, &after, taken),
        other != id,
    ensures
        after.lookup(other) == before.lookup(other),
{
    if slot_of(other) == slot_of(id) {
        lemma_one_handle_per_slot(other, id);
    }
}

/// A map insertion changes nothing that a third handle names.
pub proof fn lemma_map_insert_spares_others(
    before: Values,
    map_id: ValueId,
    key: Seq<char>,
    value_id: ValueId,
    after: Values,
    done: bool,
    other: ValueId,
)
    requires
        before.map_inserts(map_id, key, value_id, &after, done),
        other != map_id,
        other != value_id,
    ensures
        after.lookup(other) == before.lookup(other),
{
    if slot_of(other) == slot_of(map_id) {
        lemma_one_handle_per_slot(other, map_id);
    }
    if slot_of(other) == slot_of(value_id) {
        lemma_one_handle_per_slot(other, value_id);
    }
}

} // verus!
