//! The glue that makes the loader a function of the scripting runtime:
//! what a script's call of it asks for, and what the script gets back.

use vstd::prelude::*;

use crate::call_context::{argument_views, Argument, ArgumentView};
use crate::entry::{Entry, EntryView};
use crate::library::{
    claim_root_value, library_path, library_path_of, load_outcome, reaches_arena,
    script_message_of, ImageOutcome,
};
use crate::values::{slot_of, Values};

verus! {

/// The name under which scripts call the loader.
pub fn load_library_name() -> (name: &'static str)
    ensures
        name@ == "load_library"@,
{
    "load_library"
}

/// The name of the entry point that every plugin exports.
pub fn entry_point_name() -> (name: &'static str)
    ensures
        name@ == "koto_load"@,
{
    "koto_load"
}

/// The path that a call with the arguments `args` asks for, where the
/// first argument is a string.
pub open spec fn requested_path_of(args: Seq<ArgumentView>, windows: bool) -> Option<Seq<char>> {
    if args.len() > 0 && args[0] is Str {
        Some(library_path_of(args[0]->Str_0, windows))
    } else {
        None
    }
}

/// The path of the image that a script asks for: the first argument of its
/// call, which must be a string, with the platform's extension after it.
/// Any other call is an error of the script, with the text that the script
/// sees.
pub fn requested_path(args: &[Argument], windows: bool) -> (path: Result<String, String>)
    ensures
        match path {
            Ok(text) => requested_path_of(argument_views(args@), windows) == Some(text@),
            Err(text) => requested_path_of(argument_views(args@), windows) is None && text@
                == "Expected a file path as the first argument"@,
        },
{
    if args.len() > 0 {
        match &args[0] {
            Argument::Str(stem) => {
                return Ok(library_path(stem.as_str(), windows));
            },
            _ => {},
        }
    }
    Err(String::from_str("Expected a file path as the first argument"))
}

/// What a script's call of the loader comes to: the root value, or the
/// failure in the words that the script sees.
pub open spec fn load_library_of(path: Seq<char>, values: &Values, outcome: ImageOutcome) -> Result<
    EntryView,
    Seq<char>,
> {
    match load_outcome(values, outcome) {
        Ok(root) => Ok(root),
        Err(failure) => Err(script_message_of(failure, path)),
    }
}

/// The model of what a script's call hands back.
pub open spec fn returned_view(returned: Result<Entry, String>) -> Result<EntryView, Seq<char>> {
    match returned {
        Ok(entry) => Ok(entry@),
        Err(text) => Err(text@),
    }
}

/// Answers a script's call of the loader, given what came of loading the
/// image at `path`: the plugin's root value, claimed from `values`, or the
/// error that the script is to see.
pub fn load_library(path: &str, values: &mut Values, outcome: ImageOutcome) -> (returned: Result<
    Entry,
    String,
>)
    ensures
        returned_view(returned) == load_library_of(path@, old(values), outcome),
        reaches_arena(outcome) ==> final(values)@ == old(values)@.remove(
            slot_of(outcome->Returned_0.value) as int,
        ),
        !reaches_arena(outcome) ==> *final(values) == *old(values),
{
    match claim_root_value(values, outcome) {
        Ok(root) => Ok(root),
        Err(failure) => Err(failure.script_message(path)),
    }
}

} // verus!
