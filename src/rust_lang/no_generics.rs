//! The largest element of a slice of integers or of characters.
use vstd::prelude::*;

verus! {

/// The largest integer of a non-empty slice.
pub fn largest_i32(list: &[i32]) -> (r: i32)
    requires
        list@.len() > 0,
    ensures
        list@.contains(r),
        forall|i: int| 0 <= i < list@.len() ==> list@[i] <= r,
{
    let mut largest = list[0];
    let mut i: usize = 1;
    let ghost mut at: int = 0;
    while i < list.len()
        invariant
            1 <= i <= list@.len(),
            0 <= at < i,
            list@[at] == largest,
            forall|j: int| 0 <= j < i ==> list@[j] <= largest,
        decreases list@.len() - i,
    {
        let item = list[i];
        if item > largest {
            largest = item;
            proof {
                at = i as int;
            }
        }
        assert(list@.subrange(0, i as int + 1)[i as int] == item);
        i = i + 1;
    }
    assert(list@.subrange(0, list@.len() as int) == list@);
    assert(list@[at] == largest);
    largest
}

/// The largest character of a non-empty slice, by code point.
pub fn largest_char(list: &[char]) -> (r: char)
    requires
        list@.len() > 0,
    ensures
        list@.contains(r),
        forall|i: int| 0 <= i < list@.len() ==> list@[i] <= r,
{
    let mut largest = list[0];
    let mut i: usize = 1;
    let ghost mut at: int = 0;
    while i < list.len()
        invariant
            1 <= i <= list@.len(),
            0 <= at < i,
            list@[at] == largest,
            forall|j: int| 0 <= j < i ==> list@[j] <= largest,
        decreases list@.len() - i,
    {
        let item = list[i];
        if item > largest {
            largest = item;
            proof {
                at = i as int;
            }
        }
        assert(list@.subrange(0, i as int + 1)[i as int] == item);
        i = i + 1;
    }
    assert(list@.subrange(0, list@.len() as int) == list@);
    assert(list@[at] == largest);
    largest
}

} // verus!
