//! Stable identifiers for rooms, objects and actions.
use std::hash::{DefaultHasher, Hash, Hasher};
use vstd::prelude::*;

verus! {

/// The value of std's `DefaultHasher` on the bytes of a string.
pub uninterp spec fn text_hash(s: Seq<char>) -> u64;

/// The value of std's `DefaultHasher` on two `u64` written in turn.
pub uninterp spec fn pair_hash(a: u64, b: u64) -> u64;

/// Relies on `str::hash` fed to `DefaultHasher::new()`, whose keys are fixed:
/// the result depends on the characters of `s` alone.
#[verifier::external_body]
fn hash_text(s: &str) -> (r: u64)
    ensures
        r == text_hash(s@),
{
    let mut hasher = DefaultHasher::new();
    s.hash(&mut hasher);
    hasher.finish()
}

/// Relies on `u64::hash` fed twice to `DefaultHasher::new()`, whose keys are
/// fixed: the result depends on `a` and `b` alone.
#[verifier::external_body]
fn hash_pair(a: u64, b: u64) -> (r: u64)
    ensures
        r == pair_hash(a, b),
{
    let mut hasher = DefaultHasher::new();
    a.hash(&mut hasher);
    b.hash(&mut hasher);
    hasher.finish()
}

/// The ID of a room, from its document's path relative to the scanned
/// directory (or from a room name given in a cross-reference).
pub open spec fn room_id_of(path: Seq<char>) -> u64 {
    text_hash(path)
}

/// The ID of the object at position `index` among the objects of a room.
pub open spec fn object_id_of(room_id: u64, index: u64) -> u64 {
    pair_hash(room_id, index)
}

/// The ID of the action at position `index` among the actions of an object.
pub open spec fn action_id_of(object_id: u64, index: u64) -> u64 {
    pair_hash(object_id, index)
}

pub fn calculate_room_id(path: &str) -> (r: u64)
    ensures
        r == room_id_of(path@),
{
    hash_text(path)
}

pub fn calculate_object_id(room_id: u64, index: u64) -> (r: u64)
    ensures
        r == object_id_of(room_id, index),
{
    hash_pair(room_id, index)
}

pub fn calculate_action_id(object_id: u64, index: u64) -> (r: u64)
    ensures
        r == action_id_of(object_id, index),
{
    hash_pair(object_id, index)
}

} // verus!
