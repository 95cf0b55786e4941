//! Drives an ambient-lighting LED strip from averaged screen-region colors:
//! per-LED color transforms, temporal smoothing, frame pacing, and the framed
//! byte protocol spoken to the LED-driving device.

pub mod color;
pub mod protocol;
pub mod runloop;
pub mod smooth;
pub mod timing;

use vstd::prelude::*;
use vstd::std_specs::cmp::PartialOrdSpec;
use std::cmp::Ordering;

verus! {

/// Returns smallest of `a` and `b` if there is one, else returns `expect`.
pub fn partial_min<T: PartialOrd>(a: T, b: T, expect: T) -> (r: T)
    ensures
        T::obeys_partial_cmp_spec() ==> r == (match a.partial_cmp_spec(&b) {
            Some(Ordering::Less) | Some(Ordering::Equal) => a,
            Some(Ordering::Greater) => b,
            None => expect,
        }),
        r == a || r == b || r == expect,
{
    match a.partial_cmp(&b) {
        Some(Ordering::Less) | Some(Ordering::Equal) => a,
        Some(Ordering::Greater) => b,
        None => expect,
    }
}

/// Returns greatest of `a` and `b` if there is one, else returns `expect`.
pub fn partial_max<T: PartialOrd>(a: T, b: T, expect: T) -> (r: T)
    ensures
        T::obeys_partial_cmp_spec() ==> r == (match a.partial_cmp_spec(&b) {
            Some(Ordering::Greater) | Some(Ordering::Equal) => a,
            Some(Ordering::Less) => b,
            None => expect,
        }),
        r == a || r == b || r == expect,
{
    match a.partial_cmp(&b) {
        Some(Ordering::Greater) | Some(Ordering::Equal) => a,
        Some(Ordering::Less) => b,
        None => expect,
    }
}

} // verus!
