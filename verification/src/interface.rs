//! The plugin's side of the table of value operations: what a plugin
//! hands to each entry, and what it makes of the answer. The call through
//! the table is not here; these are the decisions around it.

use vstd::prelude::*;
use vstd::utf8::encode_utf8;

use crate::abi::{ResultCode, ValueId, SUCCESS};

verus! {

/// A handle in a plugin's hands.
#[derive(Debug, PartialEq, Eq)]
pub struct Value(pub ValueId);

/// A handle that is known to name a number.
#[derive(Debug, PartialEq, Eq)]
pub struct NumberRef {
    id: ValueId,
}

/// What gives its handle.
pub trait ValueRef {
    /// The handle.
    spec fn handle(&self) -> ValueId;

    /// The handle.
    fn id(&self) -> (id: ValueId)
        ensures
            id == self.handle(),
    ;
}

impl ValueRef for Value {
    open spec fn handle(&self) -> ValueId {
        self.0
    }

    fn id(&self) -> (id: ValueId) {
        self.0
    }
}

impl NumberRef {
    /// The reference for a handle that names a number.
    pub fn new(id: ValueId) -> (number: NumberRef)
        ensures
            number.handle() == id,
    {
        NumberRef { id }
    }
}

impl ValueRef for NumberRef {
    closed spec fn handle(&self) -> ValueId {
        self.id
    }

    fn id(&self) -> (id: ValueId) {
        self.id
    }
}

/// Why a plugin's request came to nothing.
#[derive(Clone, Copy, Debug, PartialEq, Eq, Structural)]
pub enum InterfaceError {
    /// The host made no map.
    CreateMap,
    /// The key cannot be a C string: it holds a zero byte.
    InvalidKey,
    /// The host did not insert into the map.
    MapInsert,
}

/// The text of each error.
pub open spec fn interface_error_text(error: InterfaceError) -> Seq<char> {
    match error {
        InterfaceError::CreateMap => "Failed to create map"@,
        InterfaceError::InvalidKey => "Invalid key"@,
        InterfaceError::MapInsert => "Failed to insert into map"@,
    }
}

impl InterfaceError {
    /// The error as text.
    pub fn message(&self) -> (text: String)
        ensures
            text@ == interface_error_text(*self),
    {
        match self {
            InterfaceError::CreateMap => String::from_str("Failed to create map"),
            InterfaceError::InvalidKey => String::from_str("Invalid key"),
            InterfaceError::MapInsert => String::from_str("Failed to insert into map"),
        }
    }
}

/// A boolean as the table takes it: `1` for true, `0` for false.
pub fn bool_flag(b: bool) -> (flag: i8)
    ensures
        flag == if b {
            1i8
        } else {
            0i8
        },
{
    if b {
        1
    } else {
        0
    }
}

/// The bytes of `text` where they can stand in a C string, that is, where
/// none of them is zero.
pub fn c_string_bytes(text: &str) -> (bytes: Option<Vec<u8>>)
    ensures
        match bytes {
            Some(b) => b@ == encode_utf8(text@) && !encode_utf8(text@).contains(0u8),
            None => encode_utf8(text@).contains(0u8),
        },
{
    let source: &[u8] = text.as_bytes();
    let mut bytes: Vec<u8> = Vec::new();
    let mut i: usize = 0;
    while i < source.len()
        invariant
            source@ == encode_utf8(text@),
            0 <= i <= source@.len(),
            bytes@ == source@.subrange(0, i as int),
            forall|j: int| 0 <= j < i ==> source@[j] != 0u8,
        decreases source.len() - i,
    {
        if source[i] == 0 {
            return None;
        }
        bytes.push(source[i]);
        proof {
            assert(bytes@ =~= source@.subrange(0, i as int + 1));
        }
        i += 1;
    }
    proof {
        assert(bytes@ =~= source@);
    }
    Some(bytes)
}

/// The bytes of `text` for a string value: those of the text, or none at
/// all where the text cannot stand in a C string.
pub fn string_bytes(text: &str) -> (bytes: Vec<u8>)
    ensures
        bytes@ == if encode_utf8(text@).contains(0u8) {
            Seq::<u8>::empty()
        } else {
            encode_utf8(text@)
        },
{
    match c_string_bytes(text) {
        Some(bytes) => bytes,
        None => Vec::new(),
    }
}

/// The key of a map insertion as bytes, or `InvalidKey`.
pub fn key_bytes(key: &str) -> (bytes: Result<Vec<u8>, InterfaceError>)
    ensures
        match bytes {
            Ok(b) => b@ == encode_utf8(key@) && !encode_utf8(key@).contains(0u8),
            Err(error) => error == InterfaceError::InvalidKey && encode_utf8(key@).contains(0u8),
        },
{
    match c_string_bytes(key) {
        Some(bytes) => Ok(bytes),
        None => Err(InterfaceError::InvalidKey),
    }
}

/// What the host's answer to a request for a map means: the handle, or
/// `CreateMap` where the answer is `-1`.
pub fn created_map(id: ValueId) -> (map: Result<Value, InterfaceError>)
    ensures
        match map {
            Ok(value) => id != -1 && value.0 == id,
            Err(error) => id == -1 && error == InterfaceError::CreateMap,
        },
{
    if id == -1 {
        Err(InterfaceError::CreateMap)
    } else {
        Ok(Value(id))
    }
}

/// What the host's answer to a map insertion means: done where it is
/// `SUCCESS`, `MapInsert` for any other code.
pub fn map_insert_done(code: ResultCode) -> (done: Result<(), InterfaceError>)
    ensures
        match done {
            Ok(_) => code == SUCCESS,
            Err(error) => code != SUCCESS && error == InterfaceError::MapInsert,
        },
{
    if code == SUCCESS {
        Ok(())
    } else {
        Err(InterfaceError::MapInsert)
    }
}

} // verus!
