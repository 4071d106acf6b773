//! The hash map that holds a fan curve, keyed by temperature, and the few
//! operations on it that the curve compiler needs. The map hashes with
//! `rustc_hash`, for which nothing is proved here: what its basic operations
//! do is stated and trusted, and everything else is built on that.

use rustc_hash::FxHashMap;
use vstd::prelude::*;

verus! {

/// The hasher builder of `rustc_hash`; carried inside the map and never read.
#[verifier::external_type_specification]
#[verifier::external_body]
pub struct ExFxBuildHasher(rustc_hash::FxBuildHasher);

/// The curve without any point.
pub open spec fn no_points() -> Map<u8, u8> {
    Map::empty()
}

/// Trusted: `FxHashMap::default()` makes a map without entries.
#[verifier::external_body]
pub(crate) fn empty_curve() -> (curve: FxHashMap<u8, u8>)
    ensures
        curve@ == no_points(),
{
    FxHashMap::default()
}

/// Trusted: `HashMap::contains_key` tells whether the key has an entry.
#[verifier::external_body]
pub(crate) fn has_point(m: &FxHashMap<u8, u8>, temp: u8) -> (present: bool)
    ensures
        present == m@.contains_key(temp),
{
    m.contains_key(&temp)
}

/// Trusted: `HashMap::insert` stores the value under the key, replacing the
/// value that the key had, and returns that earlier value if there was one.
#[verifier::external_body]
pub(crate) fn put_point(m: &mut FxHashMap<u8, u8>, temp: u8, duty: u8) -> (earlier: Option<u8>)
    ensures
        final(m)@ == old(m)@.insert(temp, duty),
        earlier == (if old(m)@.contains_key(temp) {
            Some(old(m)@[temp])
        } else {
            None
        }),
{
    m.insert(temp, duty)
}

/// Trusted: `HashMap::get` returns the value stored under the key, or `None`
/// where the key is absent.
#[verifier::external_body]
pub(crate) fn get_point(m: &FxHashMap<u8, u8>, temp: u8) -> (r: Option<&u8>)
    ensures
        r == (if m@.contains_key(temp) {
            Some(&m@[temp])
        } else {
            None
        }),
{
    m.get(&temp)
}

/// Gives the temperature a duty only where it has none yet. Returns whether
/// the duty was stored; an occupied temperature keeps its duty.
pub fn try_insert(m: &mut FxHashMap<u8, u8>, temp: u8, duty: u8) -> (inserted: bool)
    ensures
        inserted == !old(m)@.contains_key(temp),
        inserted ==> final(m)@ == old(m)@.insert(temp, duty),
        !inserted ==> final(m)@ == old(m)@,
{
    if has_point(m, temp) {
        false
    } else {
        let _ = put_point(m, temp, duty);
        true
    }
}

/// The duty stored for the temperature, if there is one.
pub fn lookup(m: &FxHashMap<u8, u8>, temp: u8) -> (r: Option<u8>)
    ensures
        r == (if m@.contains_key(temp) {
            Some(m@[temp])
        } else {
            None
        }),
{
    match get_point(m, temp) {
        Some(duty) => Some(*duty),
        None => None,
    }
}

} // verus!
