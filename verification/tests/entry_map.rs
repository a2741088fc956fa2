use koto_clib::{Entry, EntryMap, LibraryBuilder};

#[test]
fn new_map_is_empty() {
    let map = EntryMap::new();
    assert_eq!(map.len(), 0);
    assert_eq!(map.get("k"), None);
    assert_eq!(map.field_at(0), None);
}

#[test]
fn insert_keeps_insertion_order() {
    let mut map = EntryMap::new();
    map.insert("b", Entry::Number(1));
    map.insert("a", Entry::Number(2));
    map.insert("c", Entry::Number(3));
    assert_eq!(map.len(), 3);
    assert_eq!(map.field_at(0), Some((&"b".to_string(), &Entry::Number(1))));
    assert_eq!(map.field_at(1), Some((&"a".to_string(), &Entry::Number(2))));
    assert_eq!(map.field_at(2), Some((&"c".to_string(), &Entry::Number(3))));
    assert_eq!(map.field_at(3), None);
}

#[test]
fn insert_of_a_present_key_overwrites_in_place() {
    let mut map = EntryMap::new();
    map.insert("b", Entry::Number(1));
    map.insert("a", Entry::Number(2));
    map.insert("b", Entry::Bool(true));
    assert_eq!(map.len(), 2);
    assert_eq!(map.field_at(0), Some((&"b".to_string(), &Entry::Bool(true))));
    assert_eq!(map.get("b"), Some(&Entry::Bool(true)));
    assert_eq!(map.get("a"), Some(&Entry::Number(2)));
}

#[test]
fn get_tells_keys_apart() {
    let mut map = EntryMap::new();
    map.insert("key", Entry::Null);
    assert_eq!(map.get("key"), Some(&Entry::Null));
    assert_eq!(map.get("ke"), None);
    assert_eq!(map.get("keys"), None);
    assert_eq!(map.get(""), None);
    map.insert("", Entry::Bool(false));
    assert_eq!(map.get(""), Some(&Entry::Bool(false)));
}

#[test]
fn builder_puts_the_root_map_together() {
    let mut inner = EntryMap::new();
    inner.insert("k", Entry::Str("v".to_string()));
    let root = LibraryBuilder::new()
        .add_string("name", "Pure Rust Library")
        .add_number("version", 2.0_f64.to_bits())
        .add_bool("rust_native", true)
        .add_function("multiply", 0x4000)
        .add_map("inner", inner)
        .add_value("nothing", Entry::Null)
        .build();
    match root {
        Entry::Mapping(fields) => {
            assert_eq!(fields.len(), 6);
            assert_eq!(fields.get("name"), Some(&Entry::Str("Pure Rust Library".to_string())));
            assert_eq!(fields.get("version"), Some(&Entry::Number(2.0_f64.to_bits())));
            assert_eq!(fields.get("rust_native"), Some(&Entry::Bool(true)));
            assert_eq!(fields.get("multiply"), Some(&Entry::NativeFunction(0x4000)));
            assert_eq!(fields.get("nothing"), Some(&Entry::Null));
            match fields.get("inner") {
                Some(Entry::Mapping(inner)) => {
                    assert_eq!(inner.get("k"), Some(&Entry::Str("v".to_string())))
                }
                other => panic!("unexpected {:?}", other),
            }
            assert_eq!(fields.field_at(0).map(|f| f.0.as_str()), Some("name"));
            assert_eq!(fields.field_at(5).map(|f| f.0.as_str()), Some("nothing"));
        }
        other => panic!("unexpected {:?}", other),
    }
}

#[test]
fn builder_overwrites_a_key() {
    let root = LibraryBuilder::default().add_bool("x", true).add_bool("x", false).build();
    match root {
        Entry::Mapping(fields) => {
            assert_eq!(fields.len(), 1);
            assert_eq!(fields.get("x"), Some(&Entry::Bool(false)));
        }
        other => panic!("unexpected {:?}", other),
    }
}
