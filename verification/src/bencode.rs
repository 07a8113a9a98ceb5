//! Bencoded values: integers, byte strings, lists and dictionaries.
//!
//! Parsing and printing are done by the `serde_bencode` crate on its own
//! `Value` type. This module declares that type, gives a mathematical model
//! of what a value holds, and wraps the few operations the rest of the crate
//! needs. None of the wrappers is verified: each one's contract restates
//! what the crate's source does.

use serde_bencode::value::Value;
use vstd::prelude::*;

verus! {

/// The mathematical content of a bencoded value.
pub enum Node {
    /// An integer.
    Int(i64),
    /// A string of bytes.
    Bytes(Seq<u8>),
    /// A list of values, in order.
    List(Seq<Node>),
    /// A dictionary from byte-string keys to values.
    Dict(Map<Seq<u8>, Node>),
}

/// Trusted: the type `serde_bencode::value::Value`, carried through as it
/// is. What a value holds is read through the wrappers below.
#[verifier::external_type_specification]
#[verifier::external_body]
pub struct ExValue(serde_bencode::value::Value);

/// Trusted: the type `serde_bencode::Error`. Nothing is read from an error.
#[verifier::external_type_specification]
#[verifier::external_body]
pub struct ExBencodeError(serde_bencode::Error);

/// What a `Value` holds.
pub uninterp spec fn node_of(v: Value) -> Node;

/// The value that `serde_bencode::from_bytes` reads from the given bytes, or
/// `None` where it reports an error.
pub uninterp spec fn parsed(bytes: Seq<u8>) -> Option<Node>;

/// The bytes that `serde_bencode::to_bytes` writes for a value.
pub uninterp spec fn emitted(node: Node) -> Seq<u8>;

/// The entries of a value that is a dictionary.
pub open spec fn entries_of(v: Value) -> Map<Seq<u8>, Node> {
    node_of(v)->Dict_0
}

/// The contents of a list of values.
pub open spec fn nodes_of(items: Seq<Value>) -> Seq<Node> {
    items.map_values(|v: Value| node_of(v))
}

/// Reads one bencoded value from the front of `bytes`.
///
/// Trusted: `serde_bencode::from_bytes` at type `Value`. The parser is a
/// function of the bytes alone; its result is named `parsed`. Bytes after
/// the first value are not looked at. The parser recurses once for each
/// level of nesting.
#[verifier::external_body]
pub(crate) fn parse(bytes: &[u8]) -> (r: Result<Value, serde_bencode::Error>)
    ensures
        r is Ok <==> parsed(bytes@) is Some,
        r matches Ok(v) ==> parsed(bytes@) == Some(node_of(v)),
{
    serde_bencode::from_bytes::<Value>(bytes)
}

/// Writes a value as bencode.
///
/// Trusted: `serde_bencode::to_bytes` at type `Value`. For a `Value` the
/// serializer has no failing path: integers, byte strings, lists and
/// dictionaries with byte-string keys are all written, dictionaries with
/// their keys in ascending byte order. What it writes is read back by the
/// parser as the same value.
#[verifier::external_body]
pub(crate) fn emit(v: &Value) -> (r: Result<Vec<u8>, serde_bencode::Error>)
    ensures
        r is Ok,
        r matches Ok(b) ==> b@ == emitted(node_of(*v)) && parsed(b@) == Some(node_of(*v)),
{
    serde_bencode::to_bytes(v)
}

/// The integer that a value holds, if it is an integer.
///
/// Trusted: tells the `Int` variant of `Value` from the others.
#[verifier::external_body]
pub(crate) fn as_int(v: &Value) -> (r: Option<i64>)
    ensures
        r == (match node_of(*v) {
            Node::Int(i) => Some(i),
            _ => None,
        }),
{
    match v {
        Value::Int(i) => Some(*i),
        Value::Bytes(_) => None,
        Value::List(_) => None,
        Value::Dict(_) => None,
    }
}

/// The bytes that a value holds, if it is a byte string.
///
/// Trusted: tells the `Bytes` variant of `Value` from the others.
#[verifier::external_body]
pub(crate) fn as_bytes(v: &Value) -> (r: Option<&Vec<u8>>)
    ensures
        r is Some <==> node_of(*v) is Bytes,
        r matches Some(b) ==> node_of(*v) == Node::Bytes(b@),
{
    match v {
        Value::Bytes(b) => Some(b),
        Value::Int(_) => None,
        Value::List(_) => None,
        Value::Dict(_) => None,
    }
}

/// The items that a value holds, if it is a list.
///
/// Trusted: tells the `List` variant of `Value` from the others.
#[verifier::external_body]
pub(crate) fn as_list(v: &Value) -> (r: Option<&Vec<Value>>)
    ensures
        r is Some <==> node_of(*v) is List,
        r matches Some(l) ==> node_of(*v) == Node::List(nodes_of(l@)),
{
    match v {
        Value::List(l) => Some(l),
        Value::Int(_) => None,
        Value::Bytes(_) => None,
        Value::Dict(_) => None,
    }
}

/// Tells whether a value is a dictionary.
///
/// Trusted: tells the `Dict` variant of `Value` from the others.
#[verifier::external_body]
pub(crate) fn is_dict(v: &Value) -> (r: bool)
    ensures
        r == (node_of(*v) is Dict),
{
    match v {
        Value::Dict(_) => true,
        Value::Int(_) => false,
        Value::Bytes(_) => false,
        Value::List(_) => false,
    }
}

/// The entry of a dictionary under `key`, if the value is a dictionary that
/// has one.
///
/// Trusted: `HashMap::get` on the map inside the `Dict` variant of `Value`.
#[verifier::external_body]
pub(crate) fn dict_get<'a>(v: &'a Value, key: &[u8]) -> (r: Option<&'a Value>)
    ensures
        r is Some <==> (node_of(*v) matches Node::Dict(m) && m.contains_key(key@)),
        r matches Some(x) ==> (node_of(*v) matches Node::Dict(m) && m[key@] == node_of(*x)),
{
    match v {
        Value::Dict(m) => m.get(key),
        Value::Int(_) => None,
        Value::Bytes(_) => None,
        Value::List(_) => None,
    }
}

/// A value that holds the given integer.
///
/// Trusted: the `Int` variant of `Value`.
#[verifier::external_body]
pub(crate) fn make_int(i: i64) -> (v: Value)
    ensures
        node_of(v) == Node::Int(i),
{
    Value::Int(i)
}

/// A value that holds the given byte string.
///
/// Trusted: the `Bytes` variant of `Value`.
#[verifier::external_body]
pub(crate) fn make_bytes(b: Vec<u8>) -> (v: Value)
    ensures
        node_of(v) == Node::Bytes(b@),
{
    Value::Bytes(b)
}

/// A value that holds the given list.
///
/// Trusted: the `List` variant of `Value`.
#[verifier::external_body]
pub(crate) fn make_list(items: Vec<Value>) -> (v: Value)
    ensures
        node_of(v) == Node::List(nodes_of(items@)),
{
    Value::List(items)
}

/// A dictionary without entries.
///
/// Trusted: the `Dict` variant of `Value` around `HashMap::new`.
#[verifier::external_body]
pub(crate) fn make_dict() -> (v: Value)
    ensures
        node_of(v) == Node::Dict(Map::<Seq<u8>, Node>::empty()),
{
    Value::Dict(std::collections::HashMap::new())
}

/// Puts an entry into a dictionary, in place of an earlier one under the
/// same key.
///
/// Trusted: `HashMap::insert` on the map inside the `Dict` variant of `Value`.
#[verifier::external_body]
pub(crate) fn dict_insert(d: &mut Value, key: Vec<u8>, value: Value)
    requires
        node_of(*old(d)) is Dict,
    ensures
        node_of(*final(d)) == Node::Dict(entries_of(*old(d)).insert(key@, node_of(value))),
{
    if let Value::Dict(m) = d {
        m.insert(key, value);
    }
}

} // verus!
