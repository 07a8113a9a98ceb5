//! The codec of the resume record: from the bencoded blob of a row to a
//! `FastresumeData` and back.
//!
//! A record is a dictionary. Each field of `FastresumeData` is read from the
//! entry under its key; entries under other keys are ignored and are not
//! written back.

use crate::bencode::{
    as_bytes, as_int, as_list, dict_get, dict_insert, emit, emitted, entries_of, is_dict,
    make_bytes, make_dict, make_int, make_list, node_of, nodes_of, parse, parsed, Node,
};
use crate::db::db_structs::{texts_view, tiers_view, FastresumeData, FastresumeModel};
use serde_bencode::value::Value;
use vstd::prelude::*;
use vstd::string::StringSliceAdditionalSpecFns;
use vstd::string::StrSliceExecFns;
use vstd::utf8::{
    decode_utf8, encode_utf8, encode_utf8_decode_utf8, encode_utf8_valid_utf8, valid_utf8,
};

verus! {

/// Why a blob could not be decoded, or a record not encoded.
#[derive(Debug, Clone, Copy, PartialEq, Eq, Structural)]
pub enum CodecError {
    /// The bytes are not a bencoded dictionary whose known entries have the
    /// types of their fields; or, on encoding, a counter of the record is
    /// larger than a bencoded integer can be read back as.
    Malformed,
    /// The dictionary is sound as far as it goes, but an entry that the
    /// record cannot do without is absent.
    UnsupportedField,
}

/// The node is a byte string that is valid UTF-8.
pub open spec fn is_text(n: Node) -> bool {
    n matches Node::Bytes(b) && valid_utf8(b)
}

/// The characters of a text node.
pub open spec fn text_of(n: Node) -> Seq<char> {
    decode_utf8(n->Bytes_0)
}

/// The node is an integer from 0 to 255.
pub open spec fn is_byte(n: Node) -> bool {
    n matches Node::Int(i) && 0 <= i <= 255
}

/// The node is a list of integers from 0 to 255.
pub open spec fn is_byte_list(n: Node) -> bool {
    n matches Node::List(l) && forall|i: int| 0 <= i < l.len() ==> is_byte(#[trigger] l[i])
}

/// The bytes of a list of small integers.
pub open spec fn byte_list_of(n: Node) -> Seq<u8> {
    n->List_0.map_values(|x: Node| x->Int_0 as u8)
}

/// The node is a list of texts.
pub open spec fn is_text_list(n: Node) -> bool {
    n matches Node::List(l) && forall|i: int| 0 <= i < l.len() ==> is_text(#[trigger] l[i])
}

/// The texts of a list of texts.
pub open spec fn text_list_of(n: Node) -> Seq<Seq<char>> {
    n->List_0.map_values(|x: Node| text_of(x))
}

/// The node is a list of lists of texts.
pub open spec fn is_tiers(n: Node) -> bool {
    n matches Node::List(l) && forall|i: int| 0 <= i < l.len() ==> is_text_list(#[trigger] l[i])
}

/// The tiers of a list of lists of texts.
pub open spec fn tiers_of(n: Node) -> Seq<Seq<Seq<char>>> {
    n->List_0.map_values(|x: Node| text_list_of(x))
}

/// Decodes bytes as UTF-8.
///
/// Trusted: `String::from_utf8` of the standard library, which returns the
/// string that the bytes encode, and an error exactly when they are not
/// valid UTF-8.
#[verifier::external_body]
fn string_from_utf8(bytes: &Vec<u8>) -> (r: Option<String>)
    ensures
        r is Some <==> valid_utf8(bytes@),
        r matches Some(s) ==> s@ == decode_utf8(bytes@),
{
    String::from_utf8(bytes.clone()).ok()
}

/// Reads a value as text.
fn read_text(v: &Value) -> (r: Option<String>)
    ensures
        r is Some <==> is_text(node_of(*v)),
        r matches Some(s) ==> s@ == text_of(node_of(*v)),
{
    match as_bytes(v) {
        Some(b) => string_from_utf8(b),
        None => None,
    }
}

/// Reads a value as a list of small integers.
fn read_byte_list(v: &Value) -> (r: Option<Vec<u8>>)
    ensures
        r is Some <==> is_byte_list(node_of(*v)),
        r matches Some(b) ==> b@ == byte_list_of(node_of(*v)),
{
    match as_list(v) {
        None => None,
        Some(items) => {
            let ghost l = nodes_of(items@);
            let mut out: Vec<u8> = Vec::new();
            let mut i: usize = 0;
            while i < items.len()
                invariant
                    i <= items.len(),
                    l == nodes_of(items@),
                    node_of(*v) == Node::List(l),
                    out@.len() == i,
                    forall|j: int|
                        0 <= j < i ==> is_byte(#[trigger] l[j]) && out@[j] == l[j]->Int_0 as u8,
                decreases items.len() - i,
            {
                assert(l[i as int] == node_of(items@[i as int]));
                match as_int(&items[i]) {
                    Some(x) => {
                        if 0 <= x && x <= 255 {
                            out.push(x as u8);
                        } else {
                            assert(!is_byte(node_of(*v)->List_0[i as int]));
                            return None;
                        }
                    },
                    None => {
                        assert(!is_byte(node_of(*v)->List_0[i as int]));
                        return None;
                    },
                }
                i = i + 1;
            }
            assert(out@ =~= byte_list_of(node_of(*v)));
            Some(out)
        },
    }
}

/// Reads a value as a list of texts.
fn read_text_list(v: &Value) -> (r: Option<Vec<String>>)
    ensures
        r is Some <==> is_text_list(node_of(*v)),
        r matches Some(t) ==> texts_view(t@) == text_list_of(node_of(*v)),
{
    match as_list(v) {
        None => None,
        Some(items) => {
            let ghost l = nodes_of(items@);
            let mut out: Vec<String> = Vec::new();
            let mut i: usize = 0;
            while i < items.len()
                invariant
                    i <= items.len(),
                    l == nodes_of(items@),
                    node_of(*v) == Node::List(l),
                    out@.len() == i,
                    forall|j: int|
                        0 <= j < i ==> is_text(#[trigger] l[j]) && out@[j]@ == text_of(l[j]),
                decreases items.len() - i,
            {
                assert(l[i as int] == node_of(items@[i as int]));
                match read_text(&items[i]) {
                    Some(s) => {
                        out.push(s);
                    },
                    None => {
                        assert(!is_text(node_of(*v)->List_0[i as int]));
                        return None;
                    },
                }
                i = i + 1;
            }
            assert(texts_view(out@) =~= text_list_of(node_of(*v)));
            Some(out)
        },
    }
}

/// Reads a value as a list of lists of texts.
fn read_tiers(v: &Value) -> (r: Option<Vec<Vec<String>>>)
    ensures
        r is Some <==> is_tiers(node_of(*v)),
        r matches Some(t) ==> tiers_view(t@) == tiers_of(node_of(*v)),
{
    match as_list(v) {
        None => None,
        Some(items) => {
            let ghost l = nodes_of(items@);
            let mut out: Vec<Vec<String>> = Vec::new();
            let mut i: usize = 0;
            while i < items.len()
                invariant
                    i <= items.len(),
                    l == nodes_of(items@),
                    node_of(*v) == Node::List(l),
                    out@.len() == i,
                    forall|j: int| 0 <= j < i ==> is_text_list(#[trigger] l[j])
                        && texts_view(out@[j]@) == text_list_of(l[j]),
                decreases items.len() - i,
            {
                assert(l[i as int] == node_of(items@[i as int]));
                match read_text_list(&items[i]) {
                    Some(s) => {
                        out.push(s);
                    },
                    None => {
                        assert(!is_text_list(node_of(*v)->List_0[i as int]));
                        return None;
                    },
                }
                i = i + 1;
            }
            assert(tiers_view(out@) =~= tiers_of(node_of(*v)));
            Some(out)
        },
    }
}


/// The node is an integer that is not negative.
pub open spec fn is_count(n: Node) -> bool {
    n matches Node::Int(i) && i >= 0
}

/// The number that a count node holds.
pub open spec fn count_of(n: Node) -> u64 {
    n->Int_0 as u64
}

/// The dictionary has an entry under the UTF-8 bytes of `name`.
pub open spec fn has_key(d: Map<Seq<u8>, Node>, name: &str) -> bool {
    d.contains_key(name.spec_bytes())
}

/// The entry of the dictionary under the UTF-8 bytes of `name`.
pub open spec fn at(d: Map<Seq<u8>, Node>, name: &str) -> Node {
    d[name.spec_bytes()]
}

/// The entry of a dictionary value under `name`, if there is one.
fn entry<'a>(v: &'a Value, name: &str) -> (r: Option<&'a Value>)
    requires
        node_of(*v) is Dict,
    ensures
        r is Some <==> has_key(entries_of(*v), name),
        r matches Some(x) ==> node_of(*x) == at(entries_of(*v), name),
{
    dict_get(v, name.as_bytes())
}

/// Reads a value as a count.
fn read_count(v: &Value) -> (r: Option<u64>)
    ensures
        r is Some <==> is_count(node_of(*v)),
        r matches Some(x) ==> x == count_of(node_of(*v)),
{
    match as_int(v) {
        Some(i) => if i >= 0 {
            Some(i as u64)
        } else {
            None
        },
        None => None,
    }
}

/// Reads a value as a byte string.
fn read_blob(v: &Value) -> (r: Option<Vec<u8>>)
    ensures
        r is Some <==> node_of(*v) is Bytes,
        r matches Some(b) ==> b@ == node_of(*v)->Bytes_0,
{
    match as_bytes(v) {
        Some(b) => Some(b.clone()),
        None => None,
    }
}

/// Reads the entry under `name` as an integer: `None` where there is no such
/// entry, `Malformed` where it holds something else.
fn entry_int(v: &Value, name: &str) -> (r: Result<Option<i64>, CodecError>)
    requires
        node_of(*v) is Dict,
    ensures
        r is Ok <==> (has_key(entries_of(*v), name) ==> at(entries_of(*v), name) is Int),
        r matches Err(e) ==> e == CodecError::Malformed,
        r matches Ok(o) ==> (o is Some <==> has_key(entries_of(*v), name)),
        r matches Ok(Some(x)) ==> x == at(entries_of(*v), name)->Int_0,
{
    match entry(v, name) {
        None => Ok(None),
        Some(x) => match as_int(x) {
            Some(y) => Ok(Some(y)),
            None => Err(CodecError::Malformed),
        },
    }
}

/// Reads the entry under `name` as an integer, and notes in `missing` where
/// there is no such entry.
fn needed_int(v: &Value, name: &str, missing: &mut bool) -> (r: Result<i64, CodecError>)
    requires
        node_of(*v) is Dict,
    ensures
        r is Ok <==> (has_key(entries_of(*v), name) ==> at(entries_of(*v), name) is Int),
        r matches Err(e) ==> e == CodecError::Malformed,
        *final(missing) == (*old(missing) || !has_key(entries_of(*v), name)),
        r matches Ok(x) ==> (has_key(entries_of(*v), name)
            ==> x == at(entries_of(*v), name)->Int_0),
{
    match entry_int(v, name) {
        Ok(Some(x)) => Ok(x),
        Ok(None) => {
            *missing = true;
            Ok(0)
        },
        Err(e) => Err(e),
    }
}

/// Reads the entry under `name` as a count: `None` where there is no such
/// entry, `Malformed` where it holds something else.
fn entry_count(v: &Value, name: &str) -> (r: Result<Option<u64>, CodecError>)
    requires
        node_of(*v) is Dict,
    ensures
        r is Ok <==> (has_key(entries_of(*v), name) ==> is_count(at(entries_of(*v), name))),
        r matches Err(e) ==> e == CodecError::Malformed,
        r matches Ok(o) ==> (o is Some <==> has_key(entries_of(*v), name)),
        r matches Ok(Some(x)) ==> x == count_of(at(entries_of(*v), name)),
{
    match entry(v, name) {
        None => Ok(None),
        Some(x) => match read_count(x) {
            Some(y) => Ok(Some(y)),
            None => Err(CodecError::Malformed),
        },
    }
}

/// Reads the entry under `name` as a count, and notes in `missing` where
/// there is no such entry.
fn needed_count(v: &Value, name: &str, missing: &mut bool) -> (r: Result<u64, CodecError>)
    requires
        node_of(*v) is Dict,
    ensures
        r is Ok <==> (has_key(entries_of(*v), name) ==> is_count(at(entries_of(*v), name))),
        r matches Err(e) ==> e == CodecError::Malformed,
        *final(missing) == (*old(missing) || !has_key(entries_of(*v), name)),
        r matches Ok(x) ==> (has_key(entries_of(*v), name)
            ==> x == count_of(at(entries_of(*v), name))),
{
    match entry_count(v, name) {
        Ok(Some(x)) => Ok(x),
        Ok(None) => {
            *missing = true;
            Ok(0)
        },
        Err(e) => Err(e),
    }
}

/// Reads the entry under `name` as a text: `None` where there is no such
/// entry, `Malformed` where it holds something else.
fn entry_text(v: &Value, name: &str) -> (r: Result<Option<String>, CodecError>)
    requires
        node_of(*v) is Dict,
    ensures
        r is Ok <==> (has_key(entries_of(*v), name) ==> is_text(at(entries_of(*v), name))),
        r matches Err(e) ==> e == CodecError::Malformed,
        r matches Ok(o) ==> (o is Some <==> has_key(entries_of(*v), name)),
        r matches Ok(Some(x)) ==> x@ == text_of(at(entries_of(*v), name)),
{
    match entry(v, name) {
        None => Ok(None),
        Some(x) => match read_text(x) {
            Some(y) => Ok(Some(y)),
            None => Err(CodecError::Malformed),
        },
    }
}

/// Reads the entry under `name` as a text, and notes in `missing` where
/// there is no such entry.
fn needed_text(v: &Value, name: &str, missing: &mut bool) -> (r: Result<String, CodecError>)
    requires
        node_of(*v) is Dict,
    ensures
        r is Ok <==> (has_key(entries_of(*v), name) ==> is_text(at(entries_of(*v), name))),
        r matches Err(e) ==> e == CodecError::Malformed,
        *final(missing) == (*old(missing) || !has_key(entries_of(*v), name)),
        r matches Ok(x) ==> (has_key(entries_of(*v), name)
            ==> x@ == text_of(at(entries_of(*v), name))),
{
    match entry_text(v, name) {
        Ok(Some(x)) => Ok(x),
        Ok(None) => {
            *missing = true;
            Ok(String::new())
        },
        Err(e) => Err(e),
    }
}

/// Reads the entry under `name` as a byte string: `None` where there is no such
/// entry, `Malformed` where it holds something else.
fn entry_blob(v: &Value, name: &str) -> (r: Result<Option<Vec<u8>>, CodecError>)
    requires
        node_of(*v) is Dict,
    ensures
        r is Ok <==> (has_key(entries_of(*v), name) ==> at(entries_of(*v), name) is Bytes),
        r matches Err(e) ==> e == CodecError::Malformed,
        r matches Ok(o) ==> (o is Some <==> has_key(entries_of(*v), name)),
        r matches Ok(Some(x)) ==> x@ == at(entries_of(*v), name)->Bytes_0,
{
    match entry(v, name) {
        None => Ok(None),
        Some(x) => match read_blob(x) {
            Some(y) => Ok(Some(y)),
            None => Err(CodecError::Malformed),
        },
    }
}

/// Reads the entry under `name` as a byte string, and notes in `missing` where
/// there is no such entry.
fn needed_blob(v: &Value, name: &str, missing: &mut bool) -> (r: Result<Vec<u8>, CodecError>)
    requires
        node_of(*v) is Dict,
    ensures
        r is Ok <==> (has_key(entries_of(*v), name) ==> at(entries_of(*v), name) is Bytes),
        r matches Err(e) ==> e == CodecError::Malformed,
        *final(missing) == (*old(missing) || !has_key(entries_of(*v), name)),
        r matches Ok(x) ==> (has_key(entries_of(*v), name)
            ==> x@ == at(entries_of(*v), name)->Bytes_0),
{
    match entry_blob(v, name) {
        Ok(Some(x)) => Ok(x),
        Ok(None) => {
            *missing = true;
            Ok(Vec::new())
        },
        Err(e) => Err(e),
    }
}

/// Reads the entry under `name` as a list of small integers: `None` where there is no such
/// entry, `Malformed` where it holds something else.
fn entry_byte_list(v: &Value, name: &str) -> (r: Result<Option<Vec<u8>>, CodecError>)
    requires
        node_of(*v) is Dict,
    ensures
        r is Ok <==> (has_key(entries_of(*v), name) ==> is_byte_list(at(entries_of(*v), name))),
        r matches Err(e) ==> e == CodecError::Malformed,
        r matches Ok(o) ==> (o is Some <==> has_key(entries_of(*v), name)),
        r matches Ok(Some(x)) ==> x@ == byte_list_of(at(entries_of(*v), name)),
{
    match entry(v, name) {
        None => Ok(None),
        Some(x) => match read_byte_list(x) {
            Some(y) => Ok(Some(y)),
            None => Err(CodecError::Malformed),
        },
    }
}

/// Reads the entry under `name` as a list of small integers, and notes in `missing` where
/// there is no such entry.
fn needed_byte_list(v: &Value, name: &str, missing: &mut bool) -> (r: Result<Vec<u8>, CodecError>)
    requires
        node_of(*v) is Dict,
    ensures
        r is Ok <==> (has_key(entries_of(*v), name) ==> is_byte_list(at(entries_of(*v), name))),
        r matches Err(e) ==> e == CodecError::Malformed,
        *final(missing) == (*old(missing) || !has_key(entries_of(*v), name)),
        r matches Ok(x) ==> (has_key(entries_of(*v), name)
            ==> x@ == byte_list_of(at(entries_of(*v), name))),
{
    match entry_byte_list(v, name) {
        Ok(Some(x)) => Ok(x),
        Ok(None) => {
            *missing = true;
            Ok(Vec::new())
        },
        Err(e) => Err(e),
    }
}

/// Reads the entry under `name` as a list of texts: `None` where there is no such
/// entry, `Malformed` where it holds something else.
fn entry_text_list(v: &Value, name: &str) -> (r: Result<Option<Vec<String>>, CodecError>)
    requires
        node_of(*v) is Dict,
    ensures
        r is Ok <==> (has_key(entries_of(*v), name) ==> is_text_list(at(entries_of(*v), name))),
        r matches Err(e) ==> e == CodecError::Malformed,
        r matches Ok(o) ==> (o is Some <==> has_key(entries_of(*v), name)),
        r matches Ok(Some(x)) ==> texts_view(x@) == text_list_of(at(entries_of(*v), name)),
{
    match entry(v, name) {
        None => Ok(None),
        Some(x) => match read_text_list(x) {
            Some(y) => Ok(Some(y)),
            None => Err(CodecError::Malformed),
        },
    }
}

/// Reads the entry under `name` as a list of texts, and notes in `missing` where
/// there is no such entry.
fn needed_text_list(v: &Value, name: &str, missing: &mut bool) -> (r: Result<
    Vec<String>,
    CodecError,
>)
    requires
        node_of(*v) is Dict,
    ensures
        r is Ok <==> (has_key(entries_of(*v), name) ==> is_text_list(at(entries_of(*v), name))),
        r matches Err(e) ==> e == CodecError::Malformed,
        *final(missing) == (*old(missing) || !has_key(entries_of(*v), name)),
        r matches Ok(x) ==> (has_key(entries_of(*v), name)
            ==> texts_view(x@) == text_list_of(at(entries_of(*v), name))),
{
    match entry_text_list(v, name) {
        Ok(Some(x)) => Ok(x),
        Ok(None) => {
            *missing = true;
            Ok(Vec::new())
        },
        Err(e) => Err(e),
    }
}

/// Reads the entry under `name` as a list of tiers: `None` where there is no such
/// entry, `Malformed` where it holds something else.
fn entry_tiers(v: &Value, name: &str) -> (r: Result<Option<Vec<Vec<String>>>, CodecError>)
    requires
        node_of(*v) is Dict,
    ensures
        r is Ok <==> (has_key(entries_of(*v), name) ==> is_tiers(at(entries_of(*v), name))),
        r matches Err(e) ==> e == CodecError::Malformed,
        r matches Ok(o) ==> (o is Some <==> has_key(entries_of(*v), name)),
        r matches Ok(Some(x)) ==> tiers_view(x@) == tiers_of(at(entries_of(*v), name)),
{
    match entry(v, name) {
        None => Ok(None),
        Some(x) => match read_tiers(x) {
            Some(y) => Ok(Some(y)),
            None => Err(CodecError::Malformed),
        },
    }
}

/// Reads the entry under `name` as a list of tiers, and notes in `missing` where
/// there is no such entry.
fn needed_tiers(v: &Value, name: &str, missing: &mut bool) -> (r: Result<
    Vec<Vec<String>>,
    CodecError,
>)
    requires
        node_of(*v) is Dict,
    ensures
        r is Ok <==> (has_key(entries_of(*v), name) ==> is_tiers(at(entries_of(*v), name))),
        r matches Err(e) ==> e == CodecError::Malformed,
        *final(missing) == (*old(missing) || !has_key(entries_of(*v), name)),
        r matches Ok(x) ==> (has_key(entries_of(*v), name)
            ==> tiers_view(x@) == tiers_of(at(entries_of(*v), name))),
{
    match entry_tiers(v, name) {
        Ok(Some(x)) => Ok(x),
        Ok(None) => {
            *missing = true;
            Ok(Vec::new())
        },
        Err(e) => Err(e),
    }
}

/// Every entry under a known key has the type of its field.
pub open spec fn sound(d: Map<Seq<u8>, Node>) -> bool {
    &&& has_key(d, "active_time") ==> at(d, "active_time") is Int
    &&& has_key(d, "added_time") ==> at(d, "added_time") is Int
    &&& has_key(d, "allocation") ==> is_text(at(d, "allocation"))
    &&& has_key(d, "apply_ip_filter") ==> at(d, "apply_ip_filter") is Int
    &&& has_key(d, "auto_managed") ==> at(d, "auto_managed") is Int
    &&& has_key(d, "completed_time") ==> at(d, "completed_time") is Int
    &&& has_key(d, "disable_dht") ==> at(d, "disable_dht") is Int
    &&& has_key(d, "disable_lsd") ==> at(d, "disable_lsd") is Int
    &&& has_key(d, "disable_pex") ==> at(d, "disable_pex") is Int
    &&& has_key(d, "download_rate_limit") ==> at(d, "download_rate_limit") is Int
    &&& has_key(d, "file-format") ==> is_text(at(d, "file-format"))
    &&& has_key(d, "file-version") ==> at(d, "file-version") is Int
    &&& has_key(d, "file_priority") ==> is_byte_list(at(d, "file_priority"))
    &&& has_key(d, "finished_time") ==> at(d, "finished_time") is Int
    &&& has_key(d, "httpseeds") ==> is_byte_list(at(d, "httpseeds"))
    &&& has_key(d, "info-hash") ==> at(d, "info-hash") is Bytes
    &&& has_key(d, "info-hash2") ==> is_text(at(d, "info-hash2"))
    &&& has_key(d, "last_download") ==> at(d, "last_download") is Int
    &&& has_key(d, "last_seen_complete") ==> at(d, "last_seen_complete") is Int
    &&& has_key(d, "last_upload") ==> at(d, "last_upload") is Int
    &&& has_key(d, "libtorrent-version") ==> is_text(at(d, "libtorrent-version"))
    &&& has_key(d, "max_connections") ==> at(d, "max_connections") is Int
    &&& has_key(d, "max_uploads") ==> at(d, "max_uploads") is Int
    &&& has_key(d, "name") ==> is_text(at(d, "name"))
    &&& has_key(d, "num_complete") ==> is_count(at(d, "num_complete"))
    &&& has_key(d, "num_downloaded") ==> is_count(at(d, "num_downloaded"))
    &&& has_key(d, "num_incomplete") ==> is_count(at(d, "num_incomplete"))
    &&& has_key(d, "paused") ==> is_count(at(d, "paused"))
    &&& has_key(d, "piece_priority") ==> is_text(at(d, "piece_priority"))
    &&& has_key(d, "pieces") ==> is_text(at(d, "pieces"))
    &&& has_key(d, "save_path") ==> is_text(at(d, "save_path"))
    &&& has_key(d, "seed_mode") ==> at(d, "seed_mode") is Int
    &&& has_key(d, "seeding_time") ==> is_count(at(d, "seeding_time"))
    &&& has_key(d, "sequential_download") ==> at(d, "sequential_download") is Int
    &&& has_key(d, "share_mode") ==> at(d, "share_mode") is Int
    &&& has_key(d, "stop_when_ready") ==> at(d, "stop_when_ready") is Int
    &&& has_key(d, "super_seeding") ==> at(d, "super_seeding") is Int
    &&& has_key(d, "total_downloaded") ==> is_count(at(d, "total_downloaded"))
    &&& has_key(d, "total_uploaded") ==> is_count(at(d, "total_uploaded"))
    &&& has_key(d, "trackers") ==> is_tiers(at(d, "trackers"))
    &&& has_key(d, "upload_mode") ==> at(d, "upload_mode") is Int
    &&& has_key(d, "upload_rate_limit") ==> at(d, "upload_rate_limit") is Int
    &&& has_key(d, "url-list") ==> is_text_list(at(d, "url-list"))
}

/// Every entry that a record cannot do without is there. The file
/// priorities and the piece priorities may be absent.
pub open spec fn complete(d: Map<Seq<u8>, Node>) -> bool {
    &&& has_key(d, "active_time")
    &&& has_key(d, "added_time")
    &&& has_key(d, "allocation")
    &&& has_key(d, "apply_ip_filter")
    &&& has_key(d, "auto_managed")
    &&& has_key(d, "completed_time")
    &&& has_key(d, "disable_dht")
    &&& has_key(d, "disable_lsd")
    &&& has_key(d, "disable_pex")
    &&& has_key(d, "download_rate_limit")
    &&& has_key(d, "file-format")
    &&& has_key(d, "file-version")
    &&& has_key(d, "finished_time")
    &&& has_key(d, "httpseeds")
    &&& has_key(d, "info-hash")
    &&& has_key(d, "info-hash2")
    &&& has_key(d, "last_download")
    &&& has_key(d, "last_seen_complete")
    &&& has_key(d, "last_upload")
    &&& has_key(d, "libtorrent-version")
    &&& has_key(d, "max_connections")
    &&& has_key(d, "max_uploads")
    &&& has_key(d, "name")
    &&& has_key(d, "num_complete")
    &&& has_key(d, "num_downloaded")
    &&& has_key(d, "num_incomplete")
    &&& has_key(d, "paused")
    &&& has_key(d, "pieces")
    &&& has_key(d, "save_path")
    &&& has_key(d, "seed_mode")
    &&& has_key(d, "seeding_time")
    &&& has_key(d, "sequential_download")
    &&& has_key(d, "share_mode")
    &&& has_key(d, "stop_when_ready")
    &&& has_key(d, "super_seeding")
    &&& has_key(d, "total_downloaded")
    &&& has_key(d, "total_uploaded")
    &&& has_key(d, "trackers")
    &&& has_key(d, "upload_mode")
    &&& has_key(d, "upload_rate_limit")
    &&& has_key(d, "url-list")
}

/// The record that a sound and complete dictionary holds.
pub open spec fn model_of(d: Map<Seq<u8>, Node>) -> FastresumeModel {
    FastresumeModel {
        active_time: at(d, "active_time")->Int_0,
        added_time: at(d, "added_time")->Int_0,
        allocation: text_of(at(d, "allocation")),
        apply_ip_filter: at(d, "apply_ip_filter")->Int_0,
        auto_managed: at(d, "auto_managed")->Int_0,
        completed_time: at(d, "completed_time")->Int_0,
        disable_dht: at(d, "disable_dht")->Int_0,
        disable_lsd: at(d, "disable_lsd")->Int_0,
        disable_pex: at(d, "disable_pex")->Int_0,
        download_rate_limit: at(d, "download_rate_limit")->Int_0,
        file_format: text_of(at(d, "file-format")),
        file_version: at(d, "file-version")->Int_0,
        file_priority: if has_key(d, "file_priority") {
            Some(byte_list_of(at(d, "file_priority")))
        } else {
            None
        },
        finished_time: at(d, "finished_time")->Int_0,
        httpseeds: byte_list_of(at(d, "httpseeds")),
        info_hash: at(d, "info-hash")->Bytes_0,
        info_hash2: text_of(at(d, "info-hash2")),
        last_download: at(d, "last_download")->Int_0,
        last_seen_complete: at(d, "last_seen_complete")->Int_0,
        last_upload: at(d, "last_upload")->Int_0,
        libtorrent_version: text_of(at(d, "libtorrent-version")),
        max_connections: at(d, "max_connections")->Int_0,
        max_uploads: at(d, "max_uploads")->Int_0,
        name: text_of(at(d, "name")),
        num_complete: count_of(at(d, "num_complete")),
        num_downloaded: count_of(at(d, "num_downloaded")),
        num_incomplete: count_of(at(d, "num_incomplete")),
        paused: count_of(at(d, "paused")),
        piece_priority: if has_key(d, "piece_priority") {
            Some(text_of(at(d, "piece_priority")))
        } else {
            None
        },
        pieces: text_of(at(d, "pieces")),
        save_path: text_of(at(d, "save_path")),
        seed_mode: at(d, "seed_mode")->Int_0,
        seeding_time: count_of(at(d, "seeding_time")),
        sequential_download: at(d, "sequential_download")->Int_0,
        share_mode: at(d, "share_mode")->Int_0,
        stop_when_ready: at(d, "stop_when_ready")->Int_0,
        super_seeding: at(d, "super_seeding")->Int_0,
        total_downloaded: count_of(at(d, "total_downloaded")),
        total_uploaded: count_of(at(d, "total_uploaded")),
        trackers: tiers_of(at(d, "trackers")),
        upload_mode: at(d, "upload_mode")->Int_0,
        upload_rate_limit: at(d, "upload_rate_limit")->Int_0,
        url_list: text_list_of(at(d, "url-list")),
    }
}

/// The record that a parsed value holds, or why it holds none. Unsound
/// content is reported before missing content.
#[verifier::opaque]
pub open spec fn record_of(n: Node) -> Result<FastresumeModel, CodecError> {
    if !(n is Dict) || !sound(n->Dict_0) {
        Err(CodecError::Malformed)
    } else if !complete(n->Dict_0) {
        Err(CodecError::UnsupportedField)
    } else {
        Ok(model_of(n->Dict_0))
    }
}

/// Reads a record from a parsed value.
///
/// The result is `record_of` of what the value holds: `Malformed` where the
/// value is no dictionary or a known entry has the wrong type,
/// `UnsupportedField` where all that is there is sound but a needed entry is
/// absent, and the record otherwise.
pub fn record_from_value(v: &Value) -> (r: Result<FastresumeData, CodecError>)
    ensures
        match record_of(node_of(*v)) {
            Ok(m) => r matches Ok(rec) && rec@ == m,
            Err(e) => r matches Err(x) && x == e,
        },
{
    reveal(record_of);
    if !is_dict(v) {
        return Err(CodecError::Malformed);
    }
    let mut missing = false;
    let active_time = needed_int(v, "active_time", &mut missing)?;
    let added_time = needed_int(v, "added_time", &mut missing)?;
    let allocation = needed_text(v, "allocation", &mut missing)?;
    let apply_ip_filter = needed_int(v, "apply_ip_filter", &mut missing)?;
    let auto_managed = needed_int(v, "auto_managed", &mut missing)?;
    let completed_time = needed_int(v, "completed_time", &mut missing)?;
    let disable_dht = needed_int(v, "disable_dht", &mut missing)?;
    let disable_lsd = needed_int(v, "disable_lsd", &mut missing)?;
    let disable_pex = needed_int(v, "disable_pex", &mut missing)?;
    let download_rate_limit = needed_int(v, "download_rate_limit", &mut missing)?;
    let file_format = needed_text(v, "file-format", &mut missing)?;
    let file_version = needed_int(v, "file-version", &mut missing)?;
    let file_priority = entry_byte_list(v, "file_priority")?;
    let finished_time = needed_int(v, "finished_time", &mut missing)?;
    let httpseeds = needed_byte_list(v, "httpseeds", &mut missing)?;
    let info_hash = needed_blob(v, "info-hash", &mut missing)?;
    let info_hash2 = needed_text(v, "info-hash2", &mut missing)?;
    let last_download = needed_int(v, "last_download", &mut missing)?;
    let last_seen_complete = needed_int(v, "last_seen_complete", &mut missing)?;
    let last_upload = needed_int(v, "last_upload", &mut missing)?;
    let libtorrent_version = needed_text(v, "libtorrent-version", &mut missing)?;
    let max_connections = needed_int(v, "max_connections", &mut missing)?;
    let max_uploads = needed_int(v, "max_uploads", &mut missing)?;
    let name = needed_text(v, "name", &mut missing)?;
    let num_complete = needed_count(v, "num_complete", &mut missing)?;
    let num_downloaded = needed_count(v, "num_downloaded", &mut missing)?;
    let num_incomplete = needed_count(v, "num_incomplete", &mut missing)?;
    let paused = needed_count(v, "paused", &mut missing)?;
    let piece_priority = entry_text(v, "piece_priority")?;
    let pieces = needed_text(v, "pieces", &mut missing)?;
    let save_path = needed_text(v, "save_path", &mut missing)?;
    let seed_mode = needed_int(v, "seed_mode", &mut missing)?;
    let seeding_time = needed_count(v, "seeding_time", &mut missing)?;
    let sequential_download = needed_int(v, "sequential_download", &mut missing)?;
    let share_mode = needed_int(v, "share_mode", &mut missing)?;
    let stop_when_ready = needed_int(v, "stop_when_ready", &mut missing)?;
    let super_seeding = needed_int(v, "super_seeding", &mut missing)?;
    let total_downloaded = needed_count(v, "total_downloaded", &mut missing)?;
    let total_uploaded = needed_count(v, "total_uploaded", &mut missing)?;
    let trackers = needed_tiers(v, "trackers", &mut missing)?;
    let upload_mode = needed_int(v, "upload_mode", &mut missing)?;
    let upload_rate_limit = needed_int(v, "upload_rate_limit", &mut missing)?;
    let url_list = needed_text_list(v, "url-list", &mut missing)?;
    if missing {
        return Err(CodecError::UnsupportedField);
    }
    Ok(
        FastresumeData {
            active_time,
            added_time,
            allocation,
            apply_ip_filter,
            auto_managed,
            completed_time,
            disable_dht,
            disable_lsd,
            disable_pex,
            download_rate_limit,
            file_format,
            file_version,
            file_priority,
            finished_time,
            httpseeds,
            info_hash,
            info_hash2,
            last_download,
            last_seen_complete,
            last_upload,
            libtorrent_version,
            max_connections,
            max_uploads,
            name,
            num_complete,
            num_downloaded,
            num_incomplete,
            paused,
            piece_priority,
            pieces,
            save_path,
            seed_mode,
            seeding_time,
            sequential_download,
            share_mode,
            stop_when_ready,
            super_seeding,
            total_downloaded,
            total_uploaded,
            trackers,
            upload_mode,
            upload_rate_limit,
            url_list,
        },
    )
}

/// The node that a text is written as.
pub open spec fn text_node(s: Seq<char>) -> Node {
    Node::Bytes(encode_utf8(s))
}

/// The node that a count is written as.
pub open spec fn count_node(c: u64) -> Node {
    Node::Int(c as i64)
}

/// The node that a list of small integers is written as.
pub open spec fn byte_list_node(b: Seq<u8>) -> Node {
    Node::List(b.map_values(|x: u8| Node::Int(x as i64)))
}

/// The node that a list of texts is written as.
pub open spec fn text_list_node(l: Seq<Seq<char>>) -> Node {
    Node::List(l.map_values(|s: Seq<char>| text_node(s)))
}

/// The node that a list of tiers is written as.
pub open spec fn tiers_node(t: Seq<Seq<Seq<char>>>) -> Node {
    Node::List(t.map_values(|l: Seq<Seq<char>>| text_list_node(l)))
}

/// `d` with the entry under the UTF-8 bytes of `name` set to `n`.
pub open spec fn with_entry(d: Map<Seq<u8>, Node>, name: &str, n: Node) -> Map<Seq<u8>, Node> {
    d.insert(name.spec_bytes(), n)
}

/// Every counter of the record fits a bencoded integer, which is read back
/// as a signed 64-bit number.
pub open spec fn encodable(m: FastresumeModel) -> bool {
    &&& m.num_complete <= i64::MAX
    &&& m.num_downloaded <= i64::MAX
    &&& m.num_incomplete <= i64::MAX
    &&& m.paused <= i64::MAX
    &&& m.seeding_time <= i64::MAX
    &&& m.total_downloaded <= i64::MAX
    &&& m.total_uploaded <= i64::MAX
}

/// The dictionary that a record is written as: one entry for each field,
/// none for an optional field that is not set.
pub open spec fn entries_for(m: FastresumeModel) -> Map<Seq<u8>, Node> {
    let d = Map::<Seq<u8>, Node>::empty();
    let d = with_entry(d, "active_time", Node::Int(m.active_time));
    let d = with_entry(d, "added_time", Node::Int(m.added_time));
    let d = with_entry(d, "allocation", text_node(m.allocation));
    let d = with_entry(d, "apply_ip_filter", Node::Int(m.apply_ip_filter));
    let d = with_entry(d, "auto_managed", Node::Int(m.auto_managed));
    let d = with_entry(d, "completed_time", Node::Int(m.completed_time));
    let d = with_entry(d, "disable_dht", Node::Int(m.disable_dht));
    let d = with_entry(d, "disable_lsd", Node::Int(m.disable_lsd));
    let d = with_entry(d, "disable_pex", Node::Int(m.disable_pex));
    let d = with_entry(d, "download_rate_limit", Node::Int(m.download_rate_limit));
    let d = with_entry(d, "file-format", text_node(m.file_format));
    let d = with_entry(d, "file-version", Node::Int(m.file_version));
    let d = match m.file_priority {
        Some(x) => with_entry(d, "file_priority", byte_list_node(x)),
        None => d,
    };
    let d = with_entry(d, "finished_time", Node::Int(m.finished_time));
    let d = with_entry(d, "httpseeds", byte_list_node(m.httpseeds));
    let d = with_entry(d, "info-hash", Node::Bytes(m.info_hash));
    let d = with_entry(d, "info-hash2", text_node(m.info_hash2));
    let d = with_entry(d, "last_download", Node::Int(m.last_download));
    let d = with_entry(d, "last_seen_complete", Node::Int(m.last_seen_complete));
    let d = with_entry(d, "last_upload", Node::Int(m.last_upload));
    let d = with_entry(d, "libtorrent-version", text_node(m.libtorrent_version));
    let d = with_entry(d, "max_connections", Node::Int(m.max_connections));
    let d = with_entry(d, "max_uploads", Node::Int(m.max_uploads));
    let d = with_entry(d, "name", text_node(m.name));
    let d = with_entry(d, "num_complete", count_node(m.num_complete));
    let d = with_entry(d, "num_downloaded", count_node(m.num_downloaded));
    let d = with_entry(d, "num_incomplete", count_node(m.num_incomplete));
    let d = with_entry(d, "paused", count_node(m.paused));
    let d = match m.piece_priority {
        Some(x) => with_entry(d, "piece_priority", text_node(x)),
        None => d,
    };
    let d = with_entry(d, "pieces", text_node(m.pieces));
    let d = with_entry(d, "save_path", text_node(m.save_path));
    let d = with_entry(d, "seed_mode", Node::Int(m.seed_mode));
    let d = with_entry(d, "seeding_time", count_node(m.seeding_time));
    let d = with_entry(d, "sequential_download", Node::Int(m.sequential_download));
    let d = with_entry(d, "share_mode", Node::Int(m.share_mode));
    let d = with_entry(d, "stop_when_ready", Node::Int(m.stop_when_ready));
    let d = with_entry(d, "super_seeding", Node::Int(m.super_seeding));
    let d = with_entry(d, "total_downloaded", count_node(m.total_downloaded));
    let d = with_entry(d, "total_uploaded", count_node(m.total_uploaded));
    let d = with_entry(d, "trackers", tiers_node(m.trackers));
    let d = with_entry(d, "upload_mode", Node::Int(m.upload_mode));
    let d = with_entry(d, "upload_rate_limit", Node::Int(m.upload_rate_limit));
    let d = with_entry(d, "url-list", text_list_node(m.url_list));
    d
}

/// The node that a record is written as.
pub open spec fn node_for(m: FastresumeModel) -> Node {
    Node::Dict(entries_for(m))
}

/// Sets the entry under `name` of a dictionary value.
fn put(d: &mut Value, name: &str, value: Value)
    requires
        node_of(*old(d)) is Dict,
    ensures
        node_of(*final(d)) == Node::Dict(with_entry(entries_of(*old(d)), name, node_of(value))),
{
    dict_insert(d, name.as_bytes_vec(), value);
}

/// Sets the entry under `name` to an integer.
fn put_int(d: &mut Value, name: &str, x: i64)
    requires
        node_of(*old(d)) is Dict,
    ensures
        node_of(*final(d)) == Node::Dict(with_entry(entries_of(*old(d)), name, Node::Int(x))),
{
    put(d, name, make_int(x));
}

/// Sets the entry under `name` to a count.
fn put_count(d: &mut Value, name: &str, x: u64)
    requires
        node_of(*old(d)) is Dict,
        x <= i64::MAX,
    ensures
        node_of(*final(d)) == Node::Dict(with_entry(entries_of(*old(d)), name, count_node(x))),
{
    put(d, name, make_int(x as i64));
}

/// The value that a text is written as.
fn text_value(s: &String) -> (v: Value)
    ensures
        node_of(v) == text_node(s@),
{
    make_bytes(s.as_str().as_bytes_vec())
}

/// Sets the entry under `name` to a text.
fn put_text(d: &mut Value, name: &str, s: &String)
    requires
        node_of(*old(d)) is Dict,
    ensures
        node_of(*final(d)) == Node::Dict(with_entry(entries_of(*old(d)), name, text_node(s@))),
{
    put(d, name, text_value(s));
}

/// Sets the entry under `name` to a byte string.
fn put_blob(d: &mut Value, name: &str, b: &Vec<u8>)
    requires
        node_of(*old(d)) is Dict,
    ensures
        node_of(*final(d)) == Node::Dict(with_entry(entries_of(*old(d)), name, Node::Bytes(b@))),
{
    put(d, name, make_bytes(b.clone()));
}

/// Sets the entry under `name` to a list of small integers.
fn put_byte_list(d: &mut Value, name: &str, b: &Vec<u8>)
    requires
        node_of(*old(d)) is Dict,
    ensures
        node_of(*final(d)) == Node::Dict(
            with_entry(entries_of(*old(d)), name, byte_list_node(b@)),
        ),
{
    let mut items: Vec<Value> = Vec::new();
    let mut i: usize = 0;
    while i < b.len()
        invariant
            i <= b.len(),
            items@.len() == i,
            forall|j: int| 0 <= j < i ==> node_of(#[trigger] items@[j]) == Node::Int(b@[j] as i64),
        decreases b.len() - i,
    {
        items.push(make_int(b[i] as i64));
        i = i + 1;
    }
    assert(nodes_of(items@) =~= b@.map_values(|x: u8| Node::Int(x as i64)));
    put(d, name, make_list(items));
}

/// The value that a list of texts is written as.
fn text_list_value(l: &Vec<String>) -> (v: Value)
    ensures
        node_of(v) == text_list_node(texts_view(l@)),
{
    let mut items: Vec<Value> = Vec::new();
    let mut i: usize = 0;
    while i < l.len()
        invariant
            i <= l.len(),
            items@.len() == i,
            forall|j: int| 0 <= j < i ==> node_of(#[trigger] items@[j]) == text_node(l@[j]@),
        decreases l.len() - i,
    {
        items.push(text_value(&l[i]));
        i = i + 1;
    }
    assert(nodes_of(items@) =~= texts_view(l@).map_values(|s: Seq<char>| text_node(s)));
    make_list(items)
}

/// Sets the entry under `name` to a list of texts.
fn put_text_list(d: &mut Value, name: &str, l: &Vec<String>)
    requires
        node_of(*old(d)) is Dict,
    ensures
        node_of(*final(d)) == Node::Dict(
            with_entry(entries_of(*old(d)), name, text_list_node(texts_view(l@))),
        ),
{
    put(d, name, text_list_value(l));
}

/// Sets the entry under `name` to a list of tiers.
fn put_tiers(d: &mut Value, name: &str, t: &Vec<Vec<String>>)
    requires
        node_of(*old(d)) is Dict,
    ensures
        node_of(*final(d)) == Node::Dict(
            with_entry(entries_of(*old(d)), name, tiers_node(tiers_view(t@))),
        ),
{
    let mut items: Vec<Value> = Vec::new();
    let mut i: usize = 0;
    while i < t.len()
        invariant
            i <= t.len(),
            items@.len() == i,
            forall|j: int|
                0 <= j < i ==> node_of(#[trigger] items@[j]) == text_list_node(
                    texts_view(t@[j]@),
                ),
        decreases t.len() - i,
    {
        items.push(text_list_value(&t[i]));
        i = i + 1;
    }
    assert(nodes_of(items@) =~= tiers_view(t@).map_values(|l: Seq<Seq<char>>| text_list_node(l)));
    put(d, name, make_list(items));
}

/// Tells whether every counter of the record can be written.
fn counters_fit(rec: &FastresumeData) -> (b: bool)
    ensures
        b == encodable(rec@),
{
    let top: u64 = 9223372036854775807;
    rec.num_complete <= top
        && rec.num_downloaded <= top
        && rec.num_incomplete <= top
        && rec.paused <= top
        && rec.seeding_time <= top
        && rec.total_downloaded <= top
        && rec.total_uploaded <= top
}

/// Builds the value that a record is written as.
///
/// A record with a counter above the largest signed 64-bit number is
/// refused as `Malformed`: written out, that counter could not be read back.
pub fn value_from_record(rec: &FastresumeData) -> (r: Result<Value, CodecError>)
    ensures
        encodable(rec@) ==> (r matches Ok(v) && node_of(v) == node_for(rec@)),
        !encodable(rec@) ==> (r matches Err(e) && e == CodecError::Malformed),
{
    if !counters_fit(rec) {
        return Err(CodecError::Malformed);
    }
    let mut d = make_dict();
    put_int(&mut d, "active_time", rec.active_time);
    put_int(&mut d, "added_time", rec.added_time);
    put_text(&mut d, "allocation", &rec.allocation);
    put_int(&mut d, "apply_ip_filter", rec.apply_ip_filter);
    put_int(&mut d, "auto_managed", rec.auto_managed);
    put_int(&mut d, "completed_time", rec.completed_time);
    put_int(&mut d, "disable_dht", rec.disable_dht);
    put_int(&mut d, "disable_lsd", rec.disable_lsd);
    put_int(&mut d, "disable_pex", rec.disable_pex);
    put_int(&mut d, "download_rate_limit", rec.download_rate_limit);
    put_text(&mut d, "file-format", &rec.file_format);
    put_int(&mut d, "file-version", rec.file_version);
    match &rec.file_priority {
        Some(x) => {
            put_byte_list(&mut d, "file_priority", x);
        },
        None => {},
    }
    put_int(&mut d, "finished_time", rec.finished_time);
    put_byte_list(&mut d, "httpseeds", &rec.httpseeds);
    put_blob(&mut d, "info-hash", &rec.info_hash);
    put_text(&mut d, "info-hash2", &rec.info_hash2);
    put_int(&mut d, "last_download", rec.last_download);
    put_int(&mut d, "last_seen_complete", rec.last_seen_complete);
    put_int(&mut d, "last_upload", rec.last_upload);
    put_text(&mut d, "libtorrent-version", &rec.libtorrent_version);
    put_int(&mut d, "max_connections", rec.max_connections);
    put_int(&mut d, "max_uploads", rec.max_uploads);
    put_text(&mut d, "name", &rec.name);
    put_count(&mut d, "num_complete", rec.num_complete);
    put_count(&mut d, "num_downloaded", rec.num_downloaded);
    put_count(&mut d, "num_incomplete", rec.num_incomplete);
    put_count(&mut d, "paused", rec.paused);
    match &rec.piece_priority {
        Some(x) => {
            put_text(&mut d, "piece_priority", x);
        },
        None => {},
    }
    put_text(&mut d, "pieces", &rec.pieces);
    put_text(&mut d, "save_path", &rec.save_path);
    put_int(&mut d, "seed_mode", rec.seed_mode);
    put_count(&mut d, "seeding_time", rec.seeding_time);
    put_int(&mut d, "sequential_download", rec.sequential_download);
    put_int(&mut d, "share_mode", rec.share_mode);
    put_int(&mut d, "stop_when_ready", rec.stop_when_ready);
    put_int(&mut d, "super_seeding", rec.super_seeding);
    put_count(&mut d, "total_downloaded", rec.total_downloaded);
    put_count(&mut d, "total_uploaded", rec.total_uploaded);
    put_tiers(&mut d, "trackers", &rec.trackers);
    put_int(&mut d, "upload_mode", rec.upload_mode);
    put_int(&mut d, "upload_rate_limit", rec.upload_rate_limit);
    put_text_list(&mut d, "url-list", &rec.url_list);
    Ok(d)
}

/// A text that is written and read back is the same text.
pub proof fn lemma_text_round_trip(s: Seq<char>)
    ensures
        is_text(text_node(s)),
        text_of(text_node(s)) == s,
{
    encode_utf8_valid_utf8(s);
    encode_utf8_decode_utf8(s);
}

/// A list of small integers that is written and read back is the same list.
pub proof fn lemma_byte_list_round_trip(b: Seq<u8>)
    ensures
        is_byte_list(byte_list_node(b)),
        byte_list_of(byte_list_node(b)) == b,
{
    assert(byte_list_of(byte_list_node(b)) =~= b);
}

/// A list of texts that is written and read back is the same list.
pub proof fn lemma_text_list_round_trip(l: Seq<Seq<char>>)
    ensures
        is_text_list(text_list_node(l)),
        text_list_of(text_list_node(l)) == l,
{
    let n = text_list_node(l);
    assert forall|i: int| 0 <= i < l.len() implies is_text(#[trigger] n->List_0[i]) && text_of(
        n->List_0[i],
    ) == l[i] by {
        lemma_text_round_trip(l[i]);
    }
    assert(text_list_of(n) =~= l);
}

/// A list of tiers that is written and read back is the same list.
pub proof fn lemma_tiers_round_trip(t: Seq<Seq<Seq<char>>>)
    ensures
        is_tiers(tiers_node(t)),
        tiers_of(tiers_node(t)) == t,
{
    let n = tiers_node(t);
    assert forall|i: int| 0 <= i < t.len() implies is_text_list(#[trigger] n->List_0[i])
        && text_list_of(n->List_0[i]) == t[i] by {
        lemma_text_list_round_trip(t[i]);
    }
    assert(tiers_of(n) =~= t);
}

/// A mark by which the keys of the record's entries are told apart: the
/// length of the name that a key encodes, and its characters at two places.
#[verifier::opaque]
spec fn key_mark(key: Seq<u8>) -> (nat, char, char) {
    let name = decode_utf8(key);
    (
        name.len(),
        if name.len() > 2 {
            name[2]
        } else {
            ' '
        },
        if name.len() > 8 {
            name[8]
        } else {
            ' '
        },
    )
}

/// The marks of the keys of the record's entries. No two are the same, so
/// no two keys are.
proof fn lemma_key_marks()
    ensures
        key_mark("active_time".spec_bytes()) == (11nat, 't', 'i'),
        key_mark("added_time".spec_bytes()) == (10nat, 'd', 'm'),
        key_mark("allocation".spec_bytes()) == (10nat, 'l', 'o'),
        key_mark("apply_ip_filter".spec_bytes()) == (15nat, 'p', '_'),
        key_mark("auto_managed".spec_bytes()) == (12nat, 't', 'a'),
        key_mark("completed_time".spec_bytes()) == (14nat, 'm', 'd'),
        key_mark("disable_dht".spec_bytes()) == (11nat, 's', 'd'),
        key_mark("disable_lsd".spec_bytes()) == (11nat, 's', 'l'),
        key_mark("disable_pex".spec_bytes()) == (11nat, 's', 'p'),
        key_mark("download_rate_limit".spec_bytes()) == (19nat, 'w', '_'),
        key_mark("file-format".spec_bytes()) == (11nat, 'l', 'm'),
        key_mark("file-version".spec_bytes()) == (12nat, 'l', 's'),
        key_mark("file_priority".spec_bytes()) == (13nat, 'l', 'o'),
        key_mark("finished_time".spec_bytes()) == (13nat, 'n', '_'),
        key_mark("httpseeds".spec_bytes()) == (9nat, 't', 's'),
        key_mark("info-hash".spec_bytes()) == (9nat, 'f', 'h'),
        key_mark("info-hash2".spec_bytes()) == (10nat, 'f', 'h'),
        key_mark("last_download".spec_bytes()) == (13nat, 's', 'n'),
        key_mark("last_seen_complete".spec_bytes()) == (18nat, 's', 'n'),
        key_mark("last_upload".spec_bytes()) == (11nat, 's', 'o'),
        key_mark("libtorrent-version".spec_bytes()) == (18nat, 'b', 'n'),
        key_mark("max_connections".spec_bytes()) == (15nat, 'x', 'e'),
        key_mark("max_uploads".spec_bytes()) == (11nat, 'x', 'a'),
        key_mark("name".spec_bytes()) == (4nat, 'm', ' '),
        key_mark("num_complete".spec_bytes()) == (12nat, 'm', 'l'),
        key_mark("num_downloaded".spec_bytes()) == (14nat, 'm', 'l'),
        key_mark("num_incomplete".spec_bytes()) == (14nat, 'm', 'm'),
        key_mark("paused".spec_bytes()) == (6nat, 'u', ' '),
        key_mark("piece_priority".spec_bytes()) == (14nat, 'e', 'i'),
        key_mark("pieces".spec_bytes()) == (6nat, 'e', ' '),
        key_mark("save_path".spec_bytes()) == (9nat, 'v', 'h'),
        key_mark("seed_mode".spec_bytes()) == (9nat, 'e', 'e'),
        key_mark("seeding_time".spec_bytes()) == (12nat, 'e', 't'),
        key_mark("sequential_download".spec_bytes()) == (19nat, 'q', 'a'),
        key_mark("share_mode".spec_bytes()) == (10nat, 'a', 'd'),
        key_mark("stop_when_ready".spec_bytes()) == (15nat, 'o', 'n'),
        key_mark("super_seeding".spec_bytes()) == (13nat, 'p', 'e'),
        key_mark("total_downloaded".spec_bytes()) == (16nat, 't', 'w'),
        key_mark("total_uploaded".spec_bytes()) == (14nat, 't', 'l'),
        key_mark("trackers".spec_bytes()) == (8nat, 'a', ' '),
        key_mark("upload_mode".spec_bytes()) == (11nat, 'l', 'o'),
        key_mark("upload_rate_limit".spec_bytes()) == (17nat, 'l', 'a'),
        key_mark("url-list".spec_bytes()) == (8nat, 'l', ' '),
{
    reveal(key_mark);
    reveal_strlit("active_time");
    encode_utf8_decode_utf8("active_time"@);
    reveal_strlit("added_time");
    encode_utf8_decode_utf8("added_time"@);
    reveal_strlit("allocation");
    encode_utf8_decode_utf8("allocation"@);
    reveal_strlit("apply_ip_filter");
    encode_utf8_decode_utf8("apply_ip_filter"@);
    reveal_strlit("auto_managed");
    encode_utf8_decode_utf8("auto_managed"@);
    reveal_strlit("completed_time");
    encode_utf8_decode_utf8("completed_time"@);
    reveal_strlit("disable_dht");
    encode_utf8_decode_utf8("disable_dht"@);
    reveal_strlit("disable_lsd");
    encode_utf8_decode_utf8("disable_lsd"@);
    reveal_strlit("disable_pex");
    encode_utf8_decode_utf8("disable_pex"@);
    reveal_strlit("download_rate_limit");
    encode_utf8_decode_utf8("download_rate_limit"@);
    reveal_strlit("file-format");
    encode_utf8_decode_utf8("file-format"@);
    reveal_strlit("file-version");
    encode_utf8_decode_utf8("file-version"@);
    reveal_strlit("file_priority");
    encode_utf8_decode_utf8("file_priority"@);
    reveal_strlit("finished_time");
    encode_utf8_decode_utf8("finished_time"@);
    reveal_strlit("httpseeds");
    encode_utf8_decode_utf8("httpseeds"@);
    reveal_strlit("info-hash");
    encode_utf8_decode_utf8("info-hash"@);
    reveal_strlit("info-hash2");
    encode_utf8_decode_utf8("info-hash2"@);
    reveal_strlit("last_download");
    encode_utf8_decode_utf8("last_download"@);
    reveal_strlit("last_seen_complete");
    encode_utf8_decode_utf8("last_seen_complete"@);
    reveal_strlit("last_upload");
    encode_utf8_decode_utf8("last_upload"@);
    reveal_strlit("libtorrent-version");
    encode_utf8_decode_utf8("libtorrent-version"@);
    reveal_strlit("max_connections");
    encode_utf8_decode_utf8("max_connections"@);
    reveal_strlit("max_uploads");
    encode_utf8_decode_utf8("max_uploads"@);
    reveal_strlit("name");
    encode_utf8_decode_utf8("name"@);
    reveal_strlit("num_complete");
    encode_utf8_decode_utf8("num_complete"@);
    reveal_strlit("num_downloaded");
    encode_utf8_decode_utf8("num_downloaded"@);
    reveal_strlit("num_incomplete");
    encode_utf8_decode_utf8("num_incomplete"@);
    reveal_strlit("paused");
    encode_utf8_decode_utf8("paused"@);
    reveal_strlit("piece_priority");
    encode_utf8_decode_utf8("piece_priority"@);
    reveal_strlit("pieces");
    encode_utf8_decode_utf8("pieces"@);
    reveal_strlit("save_path");
    encode_utf8_decode_utf8("save_path"@);
    reveal_strlit("seed_mode");
    encode_utf8_decode_utf8("seed_mode"@);
    reveal_strlit("seeding_time");
    encode_utf8_decode_utf8("seeding_time"@);
    reveal_strlit("sequential_download");
    encode_utf8_decode_utf8("sequential_download"@);
    reveal_strlit("share_mode");
    encode_utf8_decode_utf8("share_mode"@);
    reveal_strlit("stop_when_ready");
    encode_utf8_decode_utf8("stop_when_ready"@);
    reveal_strlit("super_seeding");
    encode_utf8_decode_utf8("super_seeding"@);
    reveal_strlit("total_downloaded");
    encode_utf8_decode_utf8("total_downloaded"@);
    reveal_strlit("total_uploaded");
    encode_utf8_decode_utf8("total_uploaded"@);
    reveal_strlit("trackers");
    encode_utf8_decode_utf8("trackers"@);
    reveal_strlit("upload_mode");
    encode_utf8_decode_utf8("upload_mode"@);
    reveal_strlit("upload_rate_limit");
    encode_utf8_decode_utf8("upload_rate_limit"@);
    reveal_strlit("url-list");
    encode_utf8_decode_utf8("url-list"@);
}

/// A record that is written as a dictionary and read back from it is the
/// same record.
pub proof fn lemma_record_round_trip(m: FastresumeModel)
    requires
        encodable(m),
    ensures
        record_of(node_for(m)) == Ok::<FastresumeModel, CodecError>(m),
{
    reveal(record_of);
    lemma_key_marks();
    lemma_text_round_trip(m.allocation);
    lemma_text_round_trip(m.file_format);
    if m.file_priority is Some {
        lemma_byte_list_round_trip(m.file_priority->0);
    }
    lemma_byte_list_round_trip(m.httpseeds);
    lemma_text_round_trip(m.info_hash2);
    lemma_text_round_trip(m.libtorrent_version);
    lemma_text_round_trip(m.name);
    if m.piece_priority is Some {
        lemma_text_round_trip(m.piece_priority->0);
    }
    lemma_text_round_trip(m.pieces);
    lemma_text_round_trip(m.save_path);
    lemma_tiers_round_trip(m.trackers);
    lemma_text_list_round_trip(m.url_list);
    let d = entries_for(m);
    assert(sound(d));
    assert(complete(d));
    let back = model_of(d);
    assert(back.active_time == m.active_time);
    assert(back.added_time == m.added_time);
    assert(back.allocation == m.allocation);
    assert(back.apply_ip_filter == m.apply_ip_filter);
    assert(back.auto_managed == m.auto_managed);
    assert(back.completed_time == m.completed_time);
    assert(back.disable_dht == m.disable_dht);
    assert(back.disable_lsd == m.disable_lsd);
    assert(back.disable_pex == m.disable_pex);
    assert(back.download_rate_limit == m.download_rate_limit);
    assert(back.file_format == m.file_format);
    assert(back.file_version == m.file_version);
    assert(back.file_priority == m.file_priority);
    assert(back.finished_time == m.finished_time);
    assert(back.httpseeds == m.httpseeds);
    assert(back.info_hash == m.info_hash);
    assert(back.info_hash2 == m.info_hash2);
    assert(back.last_download == m.last_download);
    assert(back.last_seen_complete == m.last_seen_complete);
    assert(back.last_upload == m.last_upload);
    assert(back.libtorrent_version == m.libtorrent_version);
    assert(back.max_connections == m.max_connections);
    assert(back.max_uploads == m.max_uploads);
    assert(back.name == m.name);
    assert(back.num_complete == m.num_complete);
    assert(back.num_downloaded == m.num_downloaded);
    assert(back.num_incomplete == m.num_incomplete);
    assert(back.paused == m.paused);
    assert(back.piece_priority == m.piece_priority);
    assert(back.pieces == m.pieces);
    assert(back.save_path == m.save_path);
    assert(back.seed_mode == m.seed_mode);
    assert(back.seeding_time == m.seeding_time);
    assert(back.sequential_download == m.sequential_download);
    assert(back.share_mode == m.share_mode);
    assert(back.stop_when_ready == m.stop_when_ready);
    assert(back.super_seeding == m.super_seeding);
    assert(back.total_downloaded == m.total_downloaded);
    assert(back.total_uploaded == m.total_uploaded);
    assert(back.trackers == m.trackers);
    assert(back.upload_mode == m.upload_mode);
    assert(back.upload_rate_limit == m.upload_rate_limit);
    assert(back.url_list == m.url_list);
}

/// A record that was read from a dictionary can be written again.
pub proof fn lemma_read_record_is_encodable(n: Node)
    ensures
        record_of(n) matches Ok(m) ==> encodable(m),
{
    reveal(record_of);
}

/// The record that a blob decodes to, or why it decodes to none: `Malformed`
/// where the bytes do not start with a bencoded value, and what `record_of`
/// says of the value otherwise.
pub open spec fn decoded(bytes: Seq<u8>) -> Result<FastresumeModel, CodecError> {
    match parsed(bytes) {
        Some(n) => record_of(n),
        None => Err(CodecError::Malformed),
    }
}

/// The blob that a record encodes to.
pub open spec fn encoded(m: FastresumeModel) -> Seq<u8> {
    emitted(node_for(m))
}

/// Decodes the resume blob of a row.
pub fn decode(bytes: &[u8]) -> (r: Result<FastresumeData, CodecError>)
    ensures
        match decoded(bytes@) {
            Ok(m) => r matches Ok(rec) && rec@ == m && encodable(m),
            Err(e) => r matches Err(x) && x == e,
        },
{
    match parse(bytes) {
        Ok(v) => {
            proof {
                lemma_read_record_is_encodable(node_of(v));
            }
            record_from_value(&v)
        },
        Err(_) => Err(CodecError::Malformed),
    }
}

/// Encodes a record as a resume blob.
///
/// Every record whose counters fit is encoded, and the blob decodes to the
/// same record again. A record with a counter that does not fit is refused
/// as `Malformed`.
pub fn encode(rec: &FastresumeData) -> (r: Result<Vec<u8>, CodecError>)
    ensures
        encodable(rec@) ==> (r matches Ok(b) && b@ == encoded(rec@) && decoded(b@) == Ok::<
            FastresumeModel,
            CodecError,
        >(rec@)),
        !encodable(rec@) ==> (r matches Err(e) && e == CodecError::Malformed),
{
    let v = value_from_record(rec)?;
    proof {
        lemma_record_round_trip(rec@);
    }
    match emit(&v) {
        Ok(b) => Ok(b),
        Err(_) => Err(CodecError::Malformed),
    }
}

} // verus!
