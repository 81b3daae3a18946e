//! The two encodings of a websocket: JSON text and MessagePack binary.
use vstd::prelude::*;

use super::message::Id;

verus! {

/// The number that `serde_json` reads as the member `id` of the JSON object
/// encoded in the given bytes, where the bytes are JSON, hold an object, and
/// that member is a non-negative integer that fits in `u64`.
pub uninterp spec fn json_id_member(bytes: Seq<u8>) -> Option<u64>;

/// The number that `rmp_serde` reads as the entry `id` of the MessagePack
/// map encoded in the given bytes, where the bytes are MessagePack, hold a
/// map, and that entry is a non-negative integer that fits in `u64`.
pub uninterp spec fn msgpack_id_member(bytes: Seq<u8>) -> Option<u64>;

/// The number that `serde_json` reads from bytes that encode a JSON array
/// of exactly one element, a non-negative integer that fits in `u64`: the
/// array form of a request that holds only its identifier.
pub uninterp spec fn json_sole_element(bytes: Seq<u8>) -> Option<u64>;

/// The number that `rmp_serde` reads from bytes that encode a MessagePack
/// array of exactly one element, a non-negative integer that fits in `u64`.
pub uninterp spec fn msgpack_sole_element(bytes: Seq<u8>) -> Option<u64>;

/// Parses `bytes` with `serde_json::from_slice` into a `serde_json::Value`
/// and reads its member `id` with `Value::get` and `Value::as_u64`. The
/// result is named `json_id_member`. Where `id` occurs twice, the value read
/// is the one that `serde_json` keeps, the last; a JSON array yields nothing.
#[verifier::external_body]
fn json_id(bytes: &[u8]) -> (r: Option<u64>)
    ensures
        r == json_id_member(bytes@),
{
    serde_json::from_slice::<serde_json::Value>(bytes).ok().and_then(
        |v| v.get("id").and_then(serde_json::Value::as_u64),
    )
}

/// Parses `bytes` with `rmp_serde::from_slice` into a `serde_json::Value`
/// and reads its entry `id` with `Value::get` and `Value::as_u64`. The
/// result is named `msgpack_id_member`.
#[verifier::external_body]
fn msgpack_id(bytes: &[u8]) -> (r: Option<u64>)
    ensures
        r == msgpack_id_member(bytes@),
{
    rmp_serde::from_slice::<serde_json::Value>(bytes).ok().and_then(
        |v| v.get("id").and_then(serde_json::Value::as_u64),
    )
}

/// Parses `bytes` with `serde_json::from_slice` into a one-element tuple of
/// `u64`. The result is named `json_sole_element`.
#[verifier::external_body]
fn json_sole(bytes: &[u8]) -> (r: Option<u64>)
    ensures
        r == json_sole_element(bytes@),
{
    serde_json::from_slice::<(u64,)>(bytes).ok().map(|t| t.0)
}

/// Parses `bytes` with `rmp_serde::from_slice` into a one-element tuple of
/// `u64`. The result is named `msgpack_sole_element`.
#[verifier::external_body]
fn msgpack_sole(bytes: &[u8]) -> (r: Option<u64>)
    ensures
        r == msgpack_sole_element(bytes@),
{
    rmp_serde::from_slice::<(u64,)>(bytes).ok().map(|t| t.0)
}

/// The integer that a message holds as its request's identifier: the
/// member `id` of an object, else the sole element of an array, which is how
/// a request holding only its identifier may also be written.
pub open spec fn id_or_sole(member: Option<u64>, sole: Option<u64>) -> Option<u64> {
    match member {
        Some(n) => Some(n),
        None => sole,
    }
}

/// The request identifier of an integer read from a message: the integer
/// where it fits in an identifier.
pub open spec fn as_request_id(n: Option<u64>) -> Option<Id> {
    match n {
        Some(k) => if k <= u32::MAX {
            Some(k as u32)
        } else {
            None
        },
        None => None,
    }
}

/// An encoding of messages on a websocket.
pub trait Mode {
    /// The identifier of the request in a message of this encoding, where
    /// the message can be read that far.
    spec fn spec_read_id(bytes: Seq<u8>) -> Option<Id>;

    /// The name of the encoding.
    spec fn spec_mode() -> &'static str;

    /// The name of the encoding.
    fn mode() -> (r: &'static str)
        ensures
            r == Self::spec_mode(),
    ;

    /// The identifier of the request in a message of this encoding, where
    /// the message can be read that far.
    fn read_id(bytes: &[u8]) -> (r: Option<Id>)
        ensures
            r == Self::spec_read_id(bytes@),
    ;
}

/// Converts an integer read from a message into a request identifier.
fn to_request_id(n: Option<u64>) -> (r: Option<Id>)
    ensures
        r == as_request_id(n),
{
    match n {
        Some(k) => if k <= 0xffff_ffff {
            Some(k as u32)
        } else {
            None
        },
        None => None,
    }
}

impl Mode for String {
    open spec fn spec_read_id(bytes: Seq<u8>) -> Option<Id> {
        as_request_id(id_or_sole(json_id_member(bytes), json_sole_element(bytes)))
    }

    open spec fn spec_mode() -> &'static str {
        "text"
    }

    fn mode() -> (r: &'static str) {
        "text"
    }

    fn read_id(bytes: &[u8]) -> (r: Option<Id>) {
        match json_id(bytes) {
            Some(n) => to_request_id(Some(n)),
            None => to_request_id(json_sole(bytes)),
        }
    }
}

impl Mode for Vec<u8> {
    open spec fn spec_read_id(bytes: Seq<u8>) -> Option<Id> {
        as_request_id(id_or_sole(msgpack_id_member(bytes), msgpack_sole_element(bytes)))
    }

    open spec fn spec_mode() -> &'static str {
        "binary"
    }

    fn mode() -> (r: &'static str) {
        "binary"
    }

    fn read_id(bytes: &[u8]) -> (r: Option<Id>) {
        match msgpack_id(bytes) {
            Some(n) => to_request_id(Some(n)),
            None => to_request_id(msgpack_sole(bytes)),
        }
    }
}

} // verus!
