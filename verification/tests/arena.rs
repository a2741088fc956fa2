use koto_clib::{
    create_bool, create_map, create_native_function, create_null, create_number, create_str,
    map_insert, Entry, EntryMap, ModuleBuilder, Values, FAILURE, SUCCESS,
};

fn number(x: f64) -> Entry {
    Entry::Number(x.to_bits())
}

#[test]
fn first_handle_of_a_fresh_arena_is_zero() {
    let mut values = Values::new();
    assert_eq!(values.insert(Entry::Null), 0);
}

#[test]
fn default_arena_is_empty() {
    let mut values = Values::default();
    assert_eq!(values.take_value(0), None);
    assert_eq!(values.insert(Entry::Bool(true)), 0);
}

#[test]
fn insert_then_take_returns_the_value() {
    let mut values = Values::new();
    let a = values.insert(Entry::Bool(true));
    let b = values.insert(number(1.5));
    let c = values.insert(Entry::Str("three".to_string()));
    assert_ne!(a, b);
    assert_ne!(b, c);
    assert_eq!(values.take_value(b), Some(number(1.5)));
    assert_eq!(values.take_value(a), Some(Entry::Bool(true)));
    assert_eq!(values.take_value(c), Some(Entry::Str("three".to_string())));
}

#[test]
fn second_take_returns_nothing() {
    let mut values = Values::new();
    let id = values.insert(Entry::Null);
    assert_eq!(values.take_value(id), Some(Entry::Null));
    assert_eq!(values.take_value(id), None);
}

#[test]
fn take_of_a_handle_never_allocated_returns_nothing() {
    let mut values = Values::new();
    assert_eq!(values.take_value(5), None);
    assert_eq!(values.take_value(-1), None);
    assert_eq!(values.take_value(i32::MIN), None);
    assert_eq!(values.take_value(i32::MAX), None);
}

#[test]
fn released_slot_is_filled_next() {
    let mut values = Values::new();
    let a = values.insert(Entry::Bool(false));
    let b = values.insert(Entry::Bool(true));
    assert_eq!(values.take_value(a), Some(Entry::Bool(false)));
    let c = values.insert(Entry::Null);
    assert_eq!(c, a);
    assert_eq!(values.take_value(b), Some(Entry::Bool(true)));
    assert_eq!(values.take_value(c), Some(Entry::Null));
}

#[test]
fn handles_stay_valid_across_other_insertions_and_removals() {
    let mut values = Values::new();
    let kept = values.insert(Entry::Str("kept".to_string()));
    let gone = values.insert(Entry::Null);
    values.insert(Entry::Bool(true));
    assert_eq!(values.take_value(gone), Some(Entry::Null));
    values.insert(number(2.0));
    assert_eq!(values.take_value(kept), Some(Entry::Str("kept".to_string())));
}

#[test]
fn number_survives_insert_and_take() {
    for x in [0.0, -0.0, 1.0, -1.0, 42.0, 1.0e-300, f64::MAX, f64::MIN, f64::MIN_POSITIVE, 0.1] {
        let mut values = Values::new();
        let id = values.create_number(f64::to_bits(x));
        match values.take_value(id) {
            Some(Entry::Number(bits)) => {
                assert_eq!(bits, x.to_bits());
                assert_eq!(f64::from_bits(bits), x);
            }
            other => panic!("unexpected {:?}", other),
        }
    }
}

#[test]
fn string_survives_insert_and_take() {
    for s in ["", "hello", "héllo wörld", "日本語", "a\u{0}b", "🦀"] {
        let mut values = Values::new();
        let id = values.create_str(s);
        assert_eq!(values.take_value(id), Some(Entry::Str(s.to_string())));
    }
}

#[test]
fn native_function_keeps_its_address() {
    let mut values = Values::new();
    let id = values.create_native_function(0x1000);
    assert_eq!(values.take_value(id), Some(Entry::NativeFunction(0x1000)));
}

#[test]
fn create_map_makes_an_empty_map() {
    let mut values = Values::new();
    let id = values.create_map();
    assert_eq!(values.take_value(id), Some(Entry::Mapping(EntryMap::new())));
}

#[test]
fn get_mut_changes_a_value_in_place() {
    let mut values = Values::new();
    let id = values.insert(Entry::Bool(false));
    match values.get_mut(id) {
        Some(entry) => *entry = Entry::Bool(true),
        None => panic!("the handle names a value"),
    }
    assert!(values.get_mut(id + 1).is_none());
    assert_eq!(values.take_value(id), Some(Entry::Bool(true)));
}

#[test]
fn map_insert_moves_the_value_into_the_map() {
    let mut values = Values::new();
    let map = values.create_map();
    let value = values.create_number(42.0_f64.to_bits());
    assert_eq!(values.map_insert(map, "k", value), Ok(()));
    assert_eq!(values.take_value(value), None);
    match values.take_value(map) {
        Some(Entry::Mapping(fields)) => {
            assert_eq!(fields.len(), 1);
            assert_eq!(fields.get("k"), Some(&number(42.0)));
        }
        other => panic!("unexpected {:?}", other),
    }
}

#[test]
fn map_insert_overwrites_a_key_and_keeps_its_place() {
    let mut values = Values::new();
    let map = values.create_map();
    let a = values.create_number(1.0_f64.to_bits());
    assert_eq!(values.map_insert(map, "a", a), Ok(()));
    let b = values.create_number(2.0_f64.to_bits());
    assert_eq!(values.map_insert(map, "b", b), Ok(()));
    let again = values.create_str("new");
    assert_eq!(values.map_insert(map, "a", again), Ok(()));
    match values.take_value(map) {
        Some(Entry::Mapping(fields)) => {
            assert_eq!(fields.len(), 2);
            assert_eq!(
                fields.field_at(0),
                Some((&"a".to_string(), &Entry::Str("new".to_string())))
            );
            assert_eq!(fields.field_at(1), Some((&"b".to_string(), &number(2.0))));
            assert_eq!(fields.field_at(2), None);
        }
        other => panic!("unexpected {:?}", other),
    }
}

#[test]
fn map_insert_without_the_value_fails() {
    let mut values = Values::new();
    let map = values.create_map();
    assert_eq!(values.map_insert(map, "k", 17), Err(()));
    assert_eq!(values.take_value(map), Some(Entry::Mapping(EntryMap::new())));
}

#[test]
fn map_insert_without_the_map_keeps_the_value() {
    let mut values = Values::new();
    let value = values.create_str("kept");
    assert_eq!(values.map_insert(9, "k", value), Err(()));
    assert_eq!(values.take_value(value), Some(Entry::Str("kept".to_string())));
}

#[test]
fn map_insert_into_what_is_no_map_keeps_both() {
    let mut values = Values::new();
    let target = values.create_number(1.0_f64.to_bits());
    let value = values.create_str("kept");
    assert_eq!(values.map_insert(target, "k", value), Err(()));
    assert_eq!(values.take_value(value), Some(Entry::Str("kept".to_string())));
    assert_eq!(values.take_value(target), Some(number(1.0)));
}

#[test]
fn map_insert_of_a_map_into_itself_fails_and_keeps_it() {
    let mut values = Values::new();
    let map = values.create_map();
    assert_eq!(values.map_insert(map, "me", map), Err(()));
    assert_eq!(values.take_value(map), Some(Entry::Mapping(EntryMap::new())));
}

#[test]
fn clear_releases_every_handle() {
    let mut values = Values::new();
    let a = values.insert(Entry::Null);
    let b = values.insert(Entry::Bool(true));
    values.clear();
    assert_eq!(values.take_value(a), None);
    assert_eq!(values.take_value(b), None);
    assert_eq!(values.insert(Entry::Null), 0);
}

#[test]
fn module_builder_is_the_arena() {
    let mut module = ModuleBuilder::new();
    let id = module.create_str("x");
    assert_eq!(module.take_value(id), Some(Entry::Str("x".to_string())));
}

#[test]
fn table_create_null_and_bool() {
    let mut values = Values::new();
    let null = create_null(Some(&mut values));
    let yes = create_bool(Some(&mut values), 1);
    let also_yes = create_bool(Some(&mut values), -3);
    let no = create_bool(Some(&mut values), 0);
    assert_eq!(values.take_value(null), Some(Entry::Null));
    assert_eq!(values.take_value(yes), Some(Entry::Bool(true)));
    assert_eq!(values.take_value(also_yes), Some(Entry::Bool(true)));
    assert_eq!(values.take_value(no), Some(Entry::Bool(false)));
}

#[test]
fn table_create_number() {
    let mut values = Values::new();
    let id = create_number(Some(&mut values), 2.5_f64.to_bits());
    assert_eq!(values.take_value(id), Some(number(2.5)));
}

#[test]
fn table_create_str_reads_utf8() {
    let mut values = Values::new();
    values.insert(Entry::Null);
    let id = create_str(Some(&mut values), Some("grüße".as_bytes()));
    assert_ne!(id, 0);
    assert_eq!(values.take_value(id), Some(Entry::Str("grüße".to_string())));
}

#[test]
fn table_create_str_refuses_bytes_that_are_not_utf8() {
    let mut values = Values::new();
    values.insert(Entry::Null);
    assert_eq!(create_str(Some(&mut values), Some(&[0x66, 0xff, 0x6f])), 0);
    assert_eq!(create_str(Some(&mut values), Some(&[0xc3])), 0);
    assert_eq!(create_str(Some(&mut values), None), 0);
    assert_eq!(values.take_value(1), None);
    assert_eq!(values.take_value(0), Some(Entry::Null));
}

#[test]
fn table_create_map_and_native_function() {
    let mut values = Values::new();
    let map = create_map(Some(&mut values));
    let func = create_native_function(Some(&mut values), 0xbeef);
    assert_eq!(values.take_value(map), Some(Entry::Mapping(EntryMap::new())));
    assert_eq!(values.take_value(func), Some(Entry::NativeFunction(0xbeef)));
}

#[test]
fn table_create_native_function_refuses_a_null_function() {
    let mut values = Values::new();
    assert_eq!(create_native_function(Some(&mut values), 0), -1);
    assert_eq!(values.take_value(0), None);
}

#[test]
fn table_entries_without_an_arena_return_their_sentinels() {
    assert_eq!(create_null(None), 0);
    assert_eq!(create_bool(None, 1), 0);
    assert_eq!(create_number(None, 1.0_f64.to_bits()), 0);
    assert_eq!(create_str(None, Some(b"text")), 0);
    assert_eq!(create_map(None), -1);
    assert_eq!(create_native_function(None, 0x10), -1);
    assert_eq!(map_insert(None, 0, Some(b"k"), 1), FAILURE);
}

#[test]
fn table_map_insert_succeeds_and_fails() {
    let mut values = Values::new();
    let map = create_map(Some(&mut values));
    let value = create_number(Some(&mut values), 42.0_f64.to_bits());
    assert_eq!(map_insert(Some(&mut values), map, None, value), FAILURE);
    assert_eq!(map_insert(Some(&mut values), map, Some(&[0xff]), value), FAILURE);
    assert_eq!(map_insert(Some(&mut values), map + 10, Some(b"k"), value), FAILURE);
    assert_eq!(map_insert(Some(&mut values), map, Some(b"k"), value), SUCCESS);
    assert_eq!(map_insert(Some(&mut values), map, Some(b"k"), value), FAILURE);
    match values.take_value(map) {
        Some(Entry::Mapping(fields)) => assert_eq!(fields.get("k"), Some(&number(42.0))),
        other => panic!("unexpected {:?}", other),
    }
}
