//! The longer of two strings.
use vstd::prelude::*;

verus! {

/// The string with more bytes; `y` when both have as many.
pub fn longest<'a>(x: &'a str, y: &'a str) -> (r: &'a str)
    ensures
        r == (if x.len() > y.len() { x } else { y }),
{
    if x.len() > y.len() {
        x
    } else {
        y
    }
}

/// The string with more bytes; `y` when both have as many.
pub fn longest3<'a>(x: &'a str, y: &'a str) -> (r: &'a str)
    ensures
        r == (if x.len() > y.len() { x } else { y }),
{
    if x.len() > y.len() {
        x
    } else {
        y
    }
}

} // verus!
