//! A handle-based bridge between a scripting runtime's values and plugins
//! that see only a C calling convention.
//!
//! Every value that crosses the boundary lives in an arena (`values`) under
//! an integer handle. A plugin builds values through one table of
//! operations (`values`) and reads the arguments of a call through another
//! (`call_context`). The bridge (`foreign_function`) says what one call of a
//! plugin function comes to, the loader (`library`) what loading a plugin
//! comes to, and `registration` words both for a script.

pub mod abi;
pub mod builder;
pub mod call_context;
pub mod entry;
pub mod foreign_function;
pub mod interface;
pub mod library;
pub mod registration;
pub mod store;
pub mod text;
pub mod values;

pub use abi::{
    CallResult, ResultCode, ValueId, ValueType, FAILURE, MINUS_ONE, NO_ARGUMENT, NO_VALUE,
    SUCCESS, TYPE_BOOL, TYPE_NULL, TYPE_NUMBER, TYPE_OTHER, TYPE_STRING, ZERO,
};
pub use builder::LibraryBuilder;
pub use call_context::{
    arg_number_diagnostic, call_ctx_arg_count, call_ctx_arg_number, call_ctx_arg_type,
    call_ctx_return_number, kvalue_to_uint, Argument, CallContextWrapper, NumberReply,
};
pub use entry::{Entry, EntryMap};
pub use foreign_function::{CallError, ForeignCall};
pub use interface::{
    bool_flag, c_string_bytes, created_map, key_bytes, map_insert_done, string_bytes,
    InterfaceError, NumberRef, Value, ValueRef,
};
pub use library::{
    claim_root_value, library_path, ImageOutcome, Library, LibraryLoader, LoadFailure,
    WrapperError,
};
pub use registration::{entry_point_name, load_library, load_library_name, requested_path};
pub use text::{decimal, decode_text};
pub use values::{
    create_bool, create_map, create_native_function, create_null, create_number, create_str,
    map_insert, ModuleBuilder, Values,
};
