use koto_clib::{
    claim_root_value, entry_point_name, library_path, load_library, load_library_name,
    requested_path, Argument, CallResult, Entry, EntryMap, ImageOutcome, Library, LibraryLoader,
    LoadFailure, Values, WrapperError,
};

fn returned(code: i32, value: i32) -> ImageOutcome {
    ImageOutcome::Returned(CallResult { code, value })
}

#[test]
fn path_gets_the_extension_of_the_platform() {
    assert_eq!(library_path("./target/debug/libthirdparty", false), "./target/debug/libthirdparty.so");
    assert_eq!(library_path("plugin", true), "plugin.dll");
    assert_eq!(library_path("", false), ".so");
    assert_eq!(library_path("lib.v2", false), "lib.v2.so");
}

#[test]
fn names_of_the_loader_and_the_entry_point() {
    assert_eq!(load_library_name(), "load_library");
    assert_eq!(entry_point_name(), "koto_load");
}

#[test]
fn wrapper_error_says_its_kind() {
    assert_eq!(WrapperError::LibraryLoad("a".to_string()).to_string(), "Library load error: a");
    assert_eq!(WrapperError::FunctionCall("b".to_string()).to_string(), "Function call error: b");
    assert_eq!(WrapperError::ValueAccess("".to_string()).to_string(), "Value access error: ");
}

#[test]
fn claim_takes_the_root_value_out_of_the_arena() {
    let mut values = Values::new();
    let other = values.insert(Entry::Null);
    let root = values.create_str("root");
    assert_eq!(claim_root_value(&mut values, returned(1, root)), Ok(Entry::Str("root".to_string())));
    assert_eq!(values.take_value(root), None);
    assert_eq!(values.take_value(other), Some(Entry::Null));
}

#[test]
fn claim_names_each_failure() {
    let mut values = Values::new();
    let kept = values.insert(Entry::Bool(true));
    assert_eq!(
        claim_root_value(&mut values, ImageOutcome::OpenFailed("no such file".to_string())),
        Err(LoadFailure::OpenFailed("no such file".to_string()))
    );
    assert_eq!(claim_root_value(&mut values, ImageOutcome::NoEntryPoint), Err(LoadFailure::NoEntryPoint));
    assert_eq!(claim_root_value(&mut values, returned(0, kept)), Err(LoadFailure::PluginFailed));
    assert_eq!(claim_root_value(&mut values, returned(1, 7)), Err(LoadFailure::NoRootValue));
    assert_eq!(claim_root_value(&mut values, returned(1, -1)), Err(LoadFailure::NoRootValue));
    assert_eq!(values.take_value(kept), Some(Entry::Bool(true)));
}

#[test]
fn failures_in_the_words_of_the_wrapper() {
    let open = LoadFailure::OpenFailed("cannot open".to_string());
    assert_eq!(open.wrapper_message("p.so"), "Failed to load 'p.so': cannot open");
    assert_eq!(
        LoadFailure::NoEntryPoint.wrapper_message("p.so"),
        "Library 'p.so' does not contain a 'koto_load' function"
    );
    assert_eq!(LoadFailure::PluginFailed.wrapper_message("p.so"), "Library load function failed");
    assert_eq!(LoadFailure::NoRootValue.wrapper_message("p.so"), "Failed to retrieve root value");
}

#[test]
fn failures_in_the_words_of_a_script() {
    let open = LoadFailure::OpenFailed("cannot open".to_string());
    assert_eq!(open.script_message("p.so"), "Failed to load library 'p.so': cannot open");
    assert_eq!(
        LoadFailure::NoEntryPoint.script_message("p.so"),
        "The library 'p.so' does not contain a 'koto_load' function"
    );
    assert_eq!(LoadFailure::PluginFailed.script_message("p.so"), "The library failed to load");
    assert_eq!(
        LoadFailure::NoRootValue.script_message("p.so"),
        "Failed to retrieve the return value"
    );
}

#[test]
fn library_load_wraps_each_failure() {
    let mut values = Values::new();
    assert_eq!(
        Library::load("p.so", &mut values, ImageOutcome::OpenFailed("gone".to_string())),
        Err(WrapperError::LibraryLoad("Failed to load 'p.so': gone".to_string()))
    );
    assert_eq!(
        Library::load("p.so", &mut values, ImageOutcome::NoEntryPoint),
        Err(WrapperError::LibraryLoad(
            "Library 'p.so' does not contain a 'koto_load' function".to_string()
        ))
    );
    assert_eq!(
        Library::load("p.so", &mut values, returned(0, 0)),
        Err(WrapperError::LibraryLoad("Library load function failed".to_string()))
    );
    assert_eq!(
        LibraryLoader::load("p.so", &mut values, returned(1, 0)),
        Err(WrapperError::LibraryLoad("Failed to retrieve root value".to_string()))
    );
}

fn sample_library() -> Library {
    let mut values = Values::new();
    let root = values.create_map();
    let greeting = values.create_str("hello");
    assert_eq!(values.map_insert(root, "greeting", greeting), Ok(()));
    let answer = values.create_number(42.0_f64.to_bits());
    assert_eq!(values.map_insert(root, "answer", answer), Ok(()));
    let flag = values.insert(Entry::Bool(true));
    assert_eq!(values.map_insert(root, "flag", flag), Ok(()));
    match Library::load("p.so", &mut values, returned(1, root)) {
        Ok(library) => library,
        Err(error) => panic!("{}", error.to_string()),
    }
}

#[test]
fn library_reads_its_root_map() {
    let library = sample_library();
    assert_eq!(library.get_string("greeting"), Some("hello".to_string()));
    assert_eq!(library.get_number("answer").map(f64::from_bits), Some(42.0));
    assert_eq!(library.get_bool("flag"), Some(true));
    assert_eq!(library.get_map_value("flag"), Some(&Entry::Bool(true)));
    assert_eq!(library.get_map_value("missing"), None);
    assert_eq!(library.get_string("answer"), None);
    assert_eq!(library.get_number("greeting"), None);
    assert_eq!(library.get_bool("greeting"), None);
    assert_eq!(library.get_bool("missing"), None);
}

#[test]
fn library_gives_its_root_value_up() {
    let library = sample_library();
    match library.root_value() {
        Entry::Mapping(fields) => assert_eq!(fields.len(), 3),
        other => panic!("unexpected {:?}", other),
    }
    match library.into_root_value() {
        Entry::Mapping(fields) => {
            assert_eq!(fields.field_at(0).map(|f| f.0.as_str()), Some("greeting"));
            assert_eq!(fields.field_at(1).map(|f| f.0.as_str()), Some("answer"));
            assert_eq!(fields.field_at(2).map(|f| f.0.as_str()), Some("flag"));
        }
        other => panic!("unexpected {:?}", other),
    }
}

#[test]
fn library_whose_root_is_no_map_has_no_fields() {
    let mut values = Values::new();
    let root = values.create_str("just text");
    let library = Library::load("p.so", &mut values, returned(1, root)).ok();
    let library = library.expect("the root value is there");
    assert_eq!(library.root_value(), &Entry::Str("just text".to_string()));
    assert_eq!(library.get_map_value("k"), None);
    assert_eq!(library.get_string("k"), None);
}

#[test]
fn script_call_needs_a_path() {
    let expected = Err("Expected a file path as the first argument".to_string());
    assert_eq!(requested_path(&[], false), expected);
    assert_eq!(requested_path(&[Argument::Number(1)], false), expected);
    assert_eq!(requested_path(&[Argument::Null, Argument::Str("p".to_string())], false), expected);
    assert_eq!(requested_path(&[Argument::Str("p".to_string())], false), Ok("p.so".to_string()));
    assert_eq!(
        requested_path(&[Argument::Str("p".to_string()), Argument::Other], true),
        Ok("p.dll".to_string())
    );
}

#[test]
fn script_gets_the_root_value_or_an_error() {
    let mut values = Values::new();
    let root = values.create_map();
    assert_eq!(
        load_library("p.so", &mut values, returned(1, root)),
        Ok(Entry::Mapping(EntryMap::new()))
    );
    assert_eq!(
        load_library("p.so", &mut values, returned(1, root)),
        Err("Failed to retrieve the return value".to_string())
    );
    assert_eq!(
        load_library("p.so", &mut values, returned(0, root)),
        Err("The library failed to load".to_string())
    );
    assert_eq!(
        load_library("p.so", &mut values, ImageOutcome::OpenFailed("denied".to_string())),
        Err("Failed to load library 'p.so': denied".to_string())
    );
}
