//! A builder for a library's root value that needs no plugin: the root map
//! is put together key by key.

use vstd::prelude::*;

use crate::entry::{distinct_keys, with_field, Entry, EntryMap, EntryView, Fields};

verus! {

/// Builds the root map of a library. No key occurs twice in the map: a
/// key that is added again gets the new value.
pub struct LibraryBuilder {
    root_map: EntryMap,
}

impl View for LibraryBuilder {
    type V = Fields;

    closed spec fn view(&self) -> Fields {
        self.root_map@
    }
}

impl LibraryBuilder {
    /// A builder whose map is empty.
    pub fn new() -> (builder: LibraryBuilder)
        ensures
            builder@ == Seq::<(Seq<char>, EntryView)>::empty(),
            distinct_keys(builder@),
    {
        LibraryBuilder { root_map: EntryMap::new() }
    }

    /// Adds a string under `key`.
    pub fn add_string(self, key: &str, value: &str) -> (builder: LibraryBuilder)
        ensures
            builder@ == with_field(self@, key@, EntryView::Str(value@)),
            distinct_keys(self@) ==> distinct_keys(builder@),
    {
        self.add_value(key, Entry::Str(value.to_owned()))
    }

    /// Adds the number with the IEEE-754 bit pattern `bits` under `key`.
    pub fn add_number(self, key: &str, bits: u64) -> (builder: LibraryBuilder)
        ensures
            builder@ == with_field(self@, key@, EntryView::Number(bits)),
            distinct_keys(self@) ==> distinct_keys(builder@),
    {
        self.add_value(key, Entry::Number(bits))
    }

    /// Adds a boolean under `key`.
    pub fn add_bool(self, key: &str, value: bool) -> (builder: LibraryBuilder)
        ensures
            builder@ == with_field(self@, key@, EntryView::Bool(value)),
            distinct_keys(self@) ==> distinct_keys(builder@),
    {
        self.add_value(key, Entry::Bool(value))
    }

    /// Adds the native function at address `func` under `key`.
    pub fn add_function(self, key: &str, func: usize) -> (builder: LibraryBuilder)
        ensures
            builder@ == with_field(self@, key@, EntryView::NativeFunction(func)),
            distinct_keys(self@) ==> distinct_keys(builder@),
    {
        self.add_value(key, Entry::NativeFunction(func))
    }

    /// Adds a nested map under `key`.
    pub fn add_map(self, key: &str, map: EntryMap) -> (builder: LibraryBuilder)
        ensures
            builder@ == with_field(self@, key@, EntryView::Mapping(map@)),
            distinct_keys(self@) ==> distinct_keys(builder@),
    {
        self.add_value(key, Entry::Mapping(map))
    }

    /// Adds any value under `key`. A key that is there already keeps its
    /// place and gets the new value.
    pub fn add_value(self, key: &str, value: Entry) -> (builder: LibraryBuilder)
        ensures
            builder@ == with_field(self@, key@, value@),
            distinct_keys(self@) ==> distinct_keys(builder@),
    {
        let mut builder = self;
        builder.root_map.insert(key, value);
        builder
    }

    /// The root value: a map of all that was added.
    pub fn build(self) -> (root: Entry)
        ensures
            root@ == EntryView::Mapping(self@),
    {
        Entry::Mapping(self.root_map)
    }
}

impl Default for LibraryBuilder {
    fn default() -> (builder: LibraryBuilder)
        ensures
            builder@ == Seq::<(Seq<char>, EntryView)>::empty(),
            distinct_keys(builder@),
    {
        LibraryBuilder::new()
    }
}

} // verus!
