//! A JSON-like structured value.
//!
//! The envelope's `data` payload is an arbitrary JSON-like tree. This module
//! holds the library's own model of such a tree, so that verified code can
//! inspect and build payloads as plain values.

use vstd::prelude::*;

verus! {

/// A structured value: a JSON-like tree of nulls, booleans, integers,
/// text, arrays and objects. An object is kept as an ordered list of
/// key/value pairs.
#[derive(Debug, PartialEq)]
pub enum JsonValue {
    Null,
    Bool(bool),
    Int(i64),
    Str(String),
    Arr(Vec<JsonValue>),
    Obj(Vec<(String, JsonValue)>),
}

} // verus!
