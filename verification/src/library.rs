//! The dynamic loader, as far as it decides anything: where a plugin's
//! image is looked for, what each way of failing is called, and how the
//! root value is claimed from the arena that the plugin's entry point
//! filled. Opening the image and calling into it is the host's part.

use vstd::prelude::*;

use crate::abi::{CallResult, FAILURE};
use crate::entry::{value_of, Entry, EntryView};
use crate::values::Values;

verus! {

/// An error of the wrapper around a loaded library.
#[derive(Debug, PartialEq, Eq)]
pub enum WrapperError {
    LibraryLoad(String),
    FunctionCall(String),
    ValueAccess(String),
}

/// The text of a wrapper error: what kind it is, then its message.
pub open spec fn wrapper_error_text(error: WrapperError) -> Seq<char> {
    match error {
        WrapperError::LibraryLoad(msg) => "Library load error: "@ + msg@,
        WrapperError::FunctionCall(msg) => "Function call error: "@ + msg@,
        WrapperError::ValueAccess(msg) => "Value access error: "@ + msg@,
    }
}

impl WrapperError {
    /// The error as text.
    pub fn to_string(&self) -> (text: String)
        ensures
            text@ == wrapper_error_text(*self),
    {
        match self {
            WrapperError::LibraryLoad(msg) => {
                let mut text = String::from_str("Library load error: ");
                text.append(msg.as_str());
                text
            },
            WrapperError::FunctionCall(msg) => {
                let mut text = String::from_str("Function call error: ");
                text.append(msg.as_str());
                text
            },
            WrapperError::ValueAccess(msg) => {
                let mut text = String::from_str("Value access error: ");
                text.append(msg.as_str());
                text
            },
        }
    }
}

/// The path of a plugin's image: the stem with the platform's extension
/// after it.
pub open spec fn library_path_of(stem: Seq<char>, windows: bool) -> Seq<char> {
    if windows {
        stem + ".dll"@
    } else {
        stem + ".so"@
    }
}

/// Where the image of the plugin `stem` is looked for: `stem` with `.dll`
/// after it on Windows and `.so` elsewhere.
pub fn library_path(stem: &str, windows: bool) -> (path: String)
    ensures
        path@ == library_path_of(stem@, windows),
{
    let mut path = String::from_str(stem);
    if windows {
        path.append(".dll");
    } else {
        path.append(".so");
    }
    path
}

/// What came of opening a plugin's image and running its entry point.
#[derive(Debug, PartialEq, Eq)]
pub enum ImageOutcome {
    /// The image could not be opened; the loader of the operating system
    /// said why.
    OpenFailed(String),
    /// The image exports no `koto_load`.
    NoEntryPoint,
    /// The entry point ran and returned.
    Returned(CallResult),
}

/// Why loading a plugin yields no root value.
#[derive(Debug, PartialEq, Eq)]
pub enum LoadFailure {
    OpenFailed(String),
    NoEntryPoint,
    PluginFailed,
    NoRootValue,
}

/// The model of a load failure.
pub enum LoadFailureView {
    OpenFailed(Seq<char>),
    NoEntryPoint,
    PluginFailed,
    NoRootValue,
}

impl View for LoadFailure {
    type V = LoadFailureView;

    open spec fn view(&self) -> LoadFailureView {
        match self {
            LoadFailure::OpenFailed(reason) => LoadFailureView::OpenFailed(reason@),
            LoadFailure::NoEntryPoint => LoadFailureView::NoEntryPoint,
            LoadFailure::PluginFailed => LoadFailureView::PluginFailed,
            LoadFailure::NoRootValue => LoadFailureView::NoRootValue,
        }
    }
}

/// What an outcome means, given the arena that the entry point wrote to:
/// each way of failing by its name, else the value that the returned handle
/// names, which must be there.
pub open spec fn load_outcome(values: &Values, outcome: ImageOutcome) -> Result<
    EntryView,
    LoadFailureView,
> {
    match outcome {
        ImageOutcome::OpenFailed(reason) => Err(LoadFailureView::OpenFailed(reason@)),
        ImageOutcome::NoEntryPoint => Err(LoadFailureView::NoEntryPoint),
        ImageOutcome::Returned(result) => if result.code == FAILURE {
            Err(LoadFailureView::PluginFailed)
        } else {
            match values.lookup(result.value) {
                Some(entry) => Ok(entry),
                None => Err(LoadFailureView::NoRootValue),
            }
        },
    }
}

/// Whether an outcome lets the loader reach into the arena.
pub open spec fn reaches_arena(outcome: ImageOutcome) -> bool {
    outcome matches ImageOutcome::Returned(result) && result.code != FAILURE
}

/// The model of what claiming the root value hands back.
pub open spec fn claim_view(claimed: Result<Entry, LoadFailure>) -> Result<
    EntryView,
    LoadFailureView,
> {
    match claimed {
        Ok(entry) => Ok(entry@),
        Err(failure) => Err(failure@),
    }
}

/// Claims the root value of a plugin from the arena that its entry point
/// filled, or says in which way loading failed. A root value that is
/// claimed leaves the arena; nothing else in the arena changes.
pub fn claim_root_value(values: &mut Values, outcome: ImageOutcome) -> (claimed: Result<
    Entry,
    LoadFailure,
>)
    ensures
        claim_view(claimed) == load_outcome(old(values), outcome),
        match outcome {
            ImageOutcome::Returned(result) if result.code != FAILURE => old(values).takes(
                result.value,
                final(values),
                match claimed {
                    Ok(entry) => Some(entry@),
                    Err(_) => None,
                },
            ),
            _ => *final(values) == *old(values),
        },
{
    match outcome {
        ImageOutcome::OpenFailed(reason) => Err(LoadFailure::OpenFailed(reason)),
        ImageOutcome::NoEntryPoint => Err(LoadFailure::NoEntryPoint),
        ImageOutcome::Returned(result) => {
            if result.code == FAILURE {
                Err(LoadFailure::PluginFailed)
            } else {
                match values.take_value(result.value) {
                    Some(entry) => Ok(entry),
                    None => Err(LoadFailure::NoRootValue),
                }
            }
        },
    }
}

/// The message of each load failure as the wrapper words it.
pub open spec fn wrapper_message_of(failure: LoadFailureView, path: Seq<char>) -> Seq<char> {
    match failure {
        LoadFailureView::OpenFailed(reason) => "Failed to load '"@ + path + "': "@ + reason,
        LoadFailureView::NoEntryPoint => "Library '"@ + path
            + "' does not contain a 'koto_load' function"@,
        LoadFailureView::PluginFailed => "Library load function failed"@,
        LoadFailureView::NoRootValue => "Failed to retrieve root value"@,
    }
}

/// The message of each load failure as a script sees it.
pub open spec fn script_message_of(failure: LoadFailureView, path: Seq<char>) -> Seq<char> {
    match failure {
        LoadFailureView::OpenFailed(reason) => "Failed to load library '"@ + path + "': "@
            + reason,
        LoadFailureView::NoEntryPoint => "The library '"@ + path
            + "' does not contain a 'koto_load' function"@,
        LoadFailureView::PluginFailed => "The library failed to load"@,
        LoadFailureView::NoRootValue => "Failed to retrieve the return value"@,
    }
}

impl LoadFailure {
    /// The failure in the wrapper's words, for the image at `path`.
    pub fn wrapper_message(&self, path: &str) -> (text: String)
        ensures
            text@ == wrapper_message_of(self@, path@),
    {
        match self {
            LoadFailure::OpenFailed(reason) => {
                let mut text = String::from_str("Failed to load '");
                text.append(path);
                text.append("': ");
                text.append(reason.as_str());
                text
            },
            LoadFailure::NoEntryPoint => {
                let mut text = String::from_str("Library '");
                text.append(path);
                text.append("' does not contain a 'koto_load' function");
                text
            },
            LoadFailure::PluginFailed => String::from_str("Library load function failed"),
            LoadFailure::NoRootValue => String::from_str("Failed to retrieve root value"),
        }
    }

    /// The failure as an error of the wrapper.
    pub fn wrapper_error(&self, path: &str) -> (error: WrapperError)
        ensures
            error matches WrapperError::LibraryLoad(msg) && msg@ == wrapper_message_of(
                self@,
                path@,
            ),
    {
        WrapperError::LibraryLoad(self.wrapper_message(path))
    }

    /// The failure in the words that a script sees, for the image at
    /// `path`.
    pub fn script_message(&self, path: &str) -> (text: String)
        ensures
            text@ == script_message_of(self@, path@),
    {
        match self {
            LoadFailure::OpenFailed(reason) => {
                let mut text = String::from_str("Failed to load library '");
                text.append(path);
                text.append("': ");
                text.append(reason.as_str());
                text
            },
            LoadFailure::NoEntryPoint => {
                let mut text = String::from_str("The library '");
                text.append(path);
                text.append("' does not contain a 'koto_load' function");
                text
            },
            LoadFailure::PluginFailed => String::from_str("The library failed to load"),
            LoadFailure::NoRootValue => String::from_str("Failed to retrieve the return value"),
        }
    }
}

/// A loaded plugin: the root value that its entry point built.
#[derive(Debug, PartialEq, Eq)]
pub struct Library {
    root_value: Entry,
}

impl View for Library {
    type V = EntryView;

    closed spec fn view(&self) -> EntryView {
        self.root_value@
    }
}

/// What the root value of a library yields under `key`: the value of that
/// key where the root is a map that has it.
pub open spec fn root_field(root: EntryView, key: Seq<char>) -> Option<EntryView> {
    match root {
        EntryView::Mapping(fields) => value_of(fields, key),
        _ => None,
    }
}

/// The model of what loading hands back.
pub open spec fn loaded_view(loaded: Result<Library, WrapperError>) -> Result<
    EntryView,
    Seq<char>,
> {
    match loaded {
        Ok(library) => Ok(library@),
        Err(WrapperError::LibraryLoad(msg)) => Err(msg@),
        Err(WrapperError::FunctionCall(msg)) => Err(msg@),
        Err(WrapperError::ValueAccess(msg)) => Err(msg@),
    }
}

/// What loading comes to: the root value, or the failure in the wrapper's
/// words.
pub open spec fn load_of(path: Seq<char>, values: &Values, outcome: ImageOutcome) -> Result<
    EntryView,
    Seq<char>,
> {
    match load_outcome(values, outcome) {
        Ok(root) => Ok(root),
        Err(failure) => Err(wrapper_message_of(failure, path)),
    }
}

impl Library {
    /// Packages what came of loading the image at `path`: the library with
    /// its root value, claimed from `values`, or a `LibraryLoad` error that
    /// says what went wrong.
    pub fn load(path: &str, values: &mut Values, outcome: ImageOutcome) -> (loaded: Result<
        Library,
        WrapperError,
    >)
        ensures
            loaded_view(loaded) == load_of(path@, old(values), outcome),
            loaded matches Err(error) ==> error is LibraryLoad,
            reaches_arena(outcome) ==> final(values)@ == old(values)@.remove(
                crate::values::slot_of(outcome->Returned_0.value) as int,
            ),
            !reaches_arena(outcome) ==> *final(values) == *old(values),
    {
        match claim_root_value(values, outcome) {
            Ok(root_value) => Ok(Library { root_value }),
            Err(failure) => Err(failure.wrapper_error(path)),
        }
    }

    /// The root value.
    pub fn root_value(&self) -> (root: &Entry)
        ensures
            root@ == self@,
    {
        &self.root_value
    }

    /// Gives the root value up to the caller.
    pub fn into_root_value(self) -> (root: Entry)
        ensures
            root@ == self@,
    {
        self.root_value
    }

    /// The value under `key` where the root value is a map that has the
    /// key.
    pub fn get_map_value(&self, key: &str) -> (found: Option<&Entry>)
        ensures
            match found {
                Some(entry) => root_field(self@, key@) == Some(entry@),
                None => root_field(self@, key@) is None,
            },
    {
        match &self.root_value {
            Entry::Mapping(map) => map.get(key),
            _ => None,
        }
    }

    /// The string under `key`, where there is one.
    pub fn get_string(&self, key: &str) -> (found: Option<String>)
        ensures
            match found {
                Some(text) => root_field(self@, key@) == Some(EntryView::Str(text@)),
                None => !(root_field(self@, key@) matches Some(EntryView::Str(_))),
            },
    {
        match self.get_map_value(key) {
            Some(Entry::Str(text)) => Some(text.clone()),
            _ => None,
        }
    }

    /// The number under `key`, as the bit pattern of its double, where
    /// there is one.
    pub fn get_number(&self, key: &str) -> (found: Option<u64>)
        ensures
            match found {
                Some(bits) => root_field(self@, key@) == Some(EntryView::Number(bits)),
                None => !(root_field(self@, key@) matches Some(EntryView::Number(_))),
            },
    {
        match self.get_map_value(key) {
            Some(Entry::Number(bits)) => Some(*bits),
            _ => None,
        }
    }

    /// The boolean under `key`, where there is one.
    pub fn get_bool(&self, key: &str) -> (found: Option<bool>)
        ensures
            match found {
                Some(b) => root_field(self@, key@) == Some(EntryView::Bool(b)),
                None => !(root_field(self@, key@) matches Some(EntryView::Bool(_))),
            },
    {
        match self.get_map_value(key) {
            Some(Entry::Bool(b)) => Some(*b),
            _ => None,
        }
    }
}

/// The loader under the name by which callers of the wrapper know it.
pub struct LibraryLoader {
    _private: (),
}

impl LibraryLoader {
    /// Packages what came of loading the image at `path`, as `Library::load`
    /// does.
    pub fn load(path: &str, values: &mut Values, outcome: ImageOutcome) -> (loaded: Result<
        Library,
        WrapperError,
    >)
        ensures
            loaded_view(loaded) == load_of(path@, old(values), outcome),
            loaded matches Err(error) ==> error is LibraryLoad,
            reaches_arena(outcome) ==> final(values)@ == old(values)@.remove(
                crate::values::slot_of(outcome->Returned_0.value) as int,
            ),
            !reaches_arena(outcome) ==> *final(values) == *old(values),
    {
        Library::load(path, values, outcome)
    }
}

} // verus!
