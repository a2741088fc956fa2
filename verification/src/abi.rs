//! The integers and records that cross the plugin boundary.

use vstd::prelude::*;

verus! {

/// A handle: the index of a slot in a value arena.
pub type ValueId = i32;

/// The outcome of a fallible call across the boundary.
pub type ResultCode = i32;

/// The tag that tells a plugin the kind of a call argument.
pub type ValueType = i32;

/// The code of a call that succeeded.
pub const SUCCESS: ResultCode = 1;

/// The code of a call that failed.
pub const FAILURE: ResultCode = 0;

/// The handle that stands for "no value".
pub const NO_VALUE: ValueId = -1;

/// The tag of a null argument.
pub const TYPE_NULL: ValueType = 0;

/// The tag of a boolean argument.
pub const TYPE_BOOL: ValueType = 1;

/// The tag of a number argument.
pub const TYPE_NUMBER: ValueType = 2;

/// The tag of a string argument. The tags between this and `TYPE_NUMBER`
/// are kept free.
pub const TYPE_STRING: ValueType = 7;

/// The tag of an argument of any other kind.
pub const TYPE_OTHER: ValueType = 0;

/// What a plugin gets in place of a tag when it asks past the last
/// argument.
pub const NO_ARGUMENT: ValueType = -1;

/// The bit pattern of the double `-1.0`.
pub const MINUS_ONE: u64 = 0xBFF0_0000_0000_0000;

/// The bit pattern of the double `0.0`.
pub const ZERO: u64 = 0;

/// What a plugin function hands back: a code, and on success the handle of
/// the value it returns or `NO_VALUE`.
#[derive(Clone, Copy, Debug, PartialEq, Eq, Structural)]
pub struct CallResult {
    pub code: ResultCode,
    pub value: ValueId,
}

impl CallResult {
    /// A successful result that carries `value`.
    pub fn success(value: ValueId) -> (r: CallResult)
        ensures
            r.code == SUCCESS,
            r.value == value,
    {
        CallResult { code: SUCCESS, value }
    }
}

} // verus!
