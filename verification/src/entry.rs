//! The values that an arena owns, and their mathematical model.

use vstd::prelude::*;

verus! {

/// The model of a map's contents: its fields in insertion order, each a key
/// with the model of its value.
pub type Fields = Seq<(Seq<char>, EntryView)>;

/// The model of an arena entry. A number is held as the bit pattern of its
/// IEEE-754 double; a native function as the address of the plugin's code.
pub enum EntryView {
    Null,
    Bool(bool),
    Number(u64),
    Str(Seq<char>),
    Mapping(Fields),
    NativeFunction(usize),
}

/// Whether `index` is the first position in `fields` whose key is `key`.
pub open spec fn is_first_index(fields: Fields, key: Seq<char>, index: int) -> bool {
    &&& 0 <= index < fields.len()
    &&& fields[index].0 == key
    &&& forall|j: int| 0 <= j < index ==> (#[trigger] fields[j]).0 != key
}

/// The first position in `fields` whose key is `key`, if there is one.
pub open spec fn first_index(fields: Fields, key: Seq<char>) -> Option<int> {
    if exists|i: int| is_first_index(fields, key, i) {
        Some(choose|i: int| is_first_index(fields, key, i))
    } else {
        None
    }
}

/// The value that `fields` holds under `key`, if any.
pub open spec fn value_of(fields: Fields, key: Seq<char>) -> Option<EntryView> {
    match first_index(fields, key) {
        Some(i) => Some(fields[i].1),
        None => None,
    }
}

/// `fields` after `value` is stored under `key`: a key that is present keeps
/// its place and gets the new value, a new key goes last.
pub open spec fn with_field(fields: Fields, key: Seq<char>, value: EntryView) -> Fields {
    match first_index(fields, key) {
        Some(i) => fields.update(i, (key, value)),
        None => fields.push((key, value)),
    }
}

/// No key occurs twice in `fields`.
pub open spec fn distinct_keys(fields: Fields) -> bool {
    forall|i: int, j: int|
        0 <= i < j < fields.len() ==> (#[trigger] fields[i]).0 != (#[trigger] fields[j]).0
}

/// A value that an arena can own.
#[derive(Debug, PartialEq, Eq)]
pub enum Entry {
    Null,
    Bool(bool),
    /// The bit pattern of an IEEE-754 double.
    Number(u64),
    Str(String),
    Mapping(EntryMap),
    /// The address of a plugin function.
    NativeFunction(usize),
}

/// A map from string keys to entries that keeps its keys in the order in
/// which they were first inserted.
#[derive(Debug, PartialEq, Eq)]
pub struct EntryMap {
    fields: Vec<(String, Entry)>,
}

impl View for Entry {
    type V = EntryView;

    open spec fn view(&self) -> EntryView
        decreases self,
    {
        match self {
            Entry::Null => EntryView::Null,
            Entry::Bool(b) => EntryView::Bool(*b),
            Entry::Number(bits) => EntryView::Number(*bits),
            Entry::Str(s) => EntryView::Str(s@),
            Entry::Mapping(m) => EntryView::Mapping(m@),
            Entry::NativeFunction(address) => EntryView::NativeFunction(*address),
        }
    }
}

impl View for EntryMap {
    type V = Fields;

    closed spec fn view(&self) -> Fields
        decreases self,
    {
        Seq::new(
            self.fields.len() as nat,
            |i: int|
                if 0 <= i < self.fields.len() {
                    (self.fields[i].0@, self.fields[i].1@)
                } else {
                    (Seq::empty(), EntryView::Null)
                },
        )
    }
}

/// The first index of a key is unique.
pub proof fn lemma_first_index_unique(fields: Fields, key: Seq<char>, i: int, j: int)
    requires
        is_first_index(fields, key, i),
        is_first_index(fields, key, j),
    ensures
        i == j,
{
    if i < j {
        assert(fields[i].0 != key);
    } else if j < i {
        assert(fields[j].0 != key);
    }
}

/// Where `first_index` finds a position, it is the first one that holds
/// the key; where it finds none, no position holds the key.
pub proof fn lemma_first_index(fields: Fields, key: Seq<char>)
    ensures
        match first_index(fields, key) {
            Some(i) => is_first_index(fields, key, i),
            None => forall|j: int| 0 <= j < fields.len() ==> (#[trigger] fields[j]).0 != key,
        },
{
    if first_index(fields, key) is None {
        assert forall|j: int| 0 <= j < fields.len() implies (#[trigger] fields[j]).0 != key by {
            if fields[j].0 == key {
                lemma_some_first_index(fields, key, j);
            }
        }
    }
}

/// A key that occurs at all has a first position.
proof fn lemma_some_first_index(fields: Fields, key: Seq<char>, at: int)
    requires
        0 <= at < fields.len(),
        fields[at].0 == key,
    ensures
        exists|i: int| is_first_index(fields, key, i),
    decreases at,
{
    if forall|j: int| 0 <= j < at ==> (#[trigger] fields[j]).0 != key {
        assert(is_first_index(fields, key, at));
    } else {
        let j = choose|j: int| 0 <= j < at && (#[trigger] fields[j]).0 == key;
        lemma_some_first_index(fields, key, j);
    }
}

/// What was stored under a key is what the key yields afterwards.
pub proof fn lemma_value_of_stored(fields: Fields, key: Seq<char>, value: EntryView)
    ensures
        value_of(with_field(fields, key, value), key) == Some(value),
{
    let after = with_field(fields, key, value);
    lemma_first_index(fields, key);
    let at = match first_index(fields, key) {
        Some(i) => i,
        None => fields.len() as int,
    };
    assert(is_first_index(after, key, at));
    lemma_first_index(after, key);
    lemma_first_index_unique(after, key, at, first_index(after, key).unwrap());
}

/// Storing under one key leaves what every other key yields unchanged.
pub proof fn lemma_value_of_other(fields: Fields, key: Seq<char>, value: EntryView, other: Seq<char>)
    requires
        other != key,
    ensures
        value_of(with_field(fields, key, value), other) == value_of(fields, other),
{
    let after = with_field(fields, key, value);
    lemma_first_index(fields, key);
    lemma_first_index(fields, other);
    lemma_first_index(after, other);
    match first_index(fields, other) {
        Some(i) => {
            assert(is_first_index(after, other, i));
            lemma_first_index_unique(after, other, i, first_index(after, other).unwrap());
        },
        None => {
            if first_index(after, other) is Some {
                let i = first_index(after, other).unwrap();
                assert(i < fields.len() ==> fields[i].0 == other);
            }
        },
    }
}

/// Storing under a key never makes a key occur twice, and never moves a
/// field that was there before: each old position keeps its key.
pub proof fn lemma_with_field_order(fields: Fields, key: Seq<char>, value: EntryView)
    ensures
        distinct_keys(fields) ==> distinct_keys(with_field(fields, key, value)),
        with_field(fields, key, value).len() >= fields.len(),
        forall|i: int|
            0 <= i < fields.len() ==> (#[trigger] with_field(fields, key, value)[i]).0
                == fields[i].0,
        forall|i: int|
            0 <= i < fields.len() && fields[i].0 != key ==> #[trigger] with_field(
                fields,
                key,
                value,
            )[i] == fields[i],
{
    lemma_first_index(fields, key);
}

impl EntryMap {
    /// The map's invariant: no key occurs twice.
    pub open spec fn well_formed(&self) -> bool {
        distinct_keys(self@)
    }

    /// An empty map.
    pub fn new() -> (map: EntryMap)
        ensures
            map@ == Seq::<(Seq<char>, EntryView)>::empty(),
            map.well_formed(),
    {
        EntryMap { fields: Vec::new() }
    }

    /// The number of keys.
    pub fn len(&self) -> (n: usize)
        ensures
            n == self@.len(),
    {
        self.fields.len()
    }

    /// Stores `value` under `key`. A key that is present keeps its place in
    /// the order and loses its former value; a new key goes last.
    pub fn insert(&mut self, key: &str, value: Entry)
        ensures
            final(self)@ == with_field(old(self)@, key@, value@),
            old(self).well_formed() ==> final(self).well_formed(),
    {
        let owned: String = key.to_owned();
        let mut i: usize = 0;
        while i < self.fields.len()
            invariant
                self.fields == old(self).fields,
                owned@ == key@,
                0 <= i <= self.fields.len(),
                forall|j: int| 0 <= j < i ==> (#[trigger] self@[j]).0 != key@,
            decreases self.fields.len() - i,
        {
            if self.fields[i].0 == owned {
                proof {
                    assert(is_first_index(self@, key@, i as int));
                    lemma_first_index(self@, key@);
                    lemma_first_index_unique(
                        self@,
                        key@,
                        i as int,
                        first_index(self@, key@).unwrap(),
                    );
                }
                self.fields[i] = (owned, value);
                return ;
            }
            i += 1;
        }
        proof {
            assert(forall|c: int| !is_first_index(self@, key@, c));
        }
        self.fields.push((owned, value));
    }

    /// The value stored under `key`, if any.
    pub fn get(&self, key: &str) -> (found: Option<&Entry>)
        ensures
            match found {
                Some(entry) => value_of(self@, key@) == Some(entry@),
                None => value_of(self@, key@) is None,
            },
    {
        let owned: String = key.to_owned();
        let mut i: usize = 0;
        while i < self.fields.len()
            invariant
                owned@ == key@,
                0 <= i <= self.fields.len(),
                forall|j: int| 0 <= j < i ==> (#[trigger] self@[j]).0 != key@,
            decreases self.fields.len() - i,
        {
            if self.fields[i].0 == owned {
                proof {
                    assert(is_first_index(self@, key@, i as int));
                    lemma_first_index(self@, key@);
                    lemma_first_index_unique(
                        self@,
                        key@,
                        i as int,
                        first_index(self@, key@).unwrap(),
                    );
                }
                return Some(&self.fields[i].1);
            }
            i += 1;
        }
        proof {
            assert(forall|c: int| !is_first_index(self@, key@, c));
        }
        None
    }

    /// The field at position `index` in insertion order: its key and its
    /// value, or `None` past the end.
    pub fn field_at(&self, index: usize) -> (field: Option<(&String, &Entry)>)
        ensures
            match field {
                Some((key, value)) => index < self@.len() && self@[index as int] == (
                    key@,
                    value@,
                ),
                None => index >= self@.len(),
            },
    {
        if index < self.fields.len() {
            Some((&self.fields[index].0, &self.fields[index].1))
        } else {
            None
        }
    }
}

} // verus!
