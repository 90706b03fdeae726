//! The largest element of a slice, for any type with a partial order.
use core::cmp::Ordering;
use vstd::prelude::*;
use vstd::std_specs::cmp::PartialOrdSpec;

verus! {

/// Whether `a` compares greater than `b`.
pub open spec fn greater<T: PartialOrd>(a: T, b: T) -> bool {
    a.partial_cmp_spec(&b) == Some(Ordering::Greater)
}

/// The element that a left-to-right scan of `s` ends on, when it starts on the
/// first element and moves to each element that compares greater than the one
/// it is on. For a total order this is the first of the largest elements.
pub open spec fn scan_largest<T: PartialOrd>(s: Seq<T>) -> T
    decreases s.len(),
{
    if s.len() <= 1 {
        s[0]
    } else {
        let m = scan_largest(s.drop_last());
        if greater(s.last(), m) {
            s.last()
        } else {
            m
        }
    }
}

/// On integers the scan ends on a largest element, so `largest` and
/// `largest_i32` return the same value on every non-empty slice.
pub proof fn lemma_scan_largest_i32(s: Seq<i32>)
    requires
        s.len() > 0,
    ensures
        s.contains(scan_largest(s)),
        forall|i: int| 0 <= i < s.len() ==> s[i] <= scan_largest(s),
    decreases s.len(),
{
    if s.len() > 1 {
        let t = s.drop_last();
        lemma_scan_largest_i32(t);
        let k = choose|k: int| 0 <= k < t.len() && t[k] == scan_largest(t);
        assert(s[k] == t[k]);
        assert(s[s.len() - 1] == s.last());
        assert forall|i: int| 0 <= i < s.len() implies s[i] <= scan_largest(s) by {
            if i < s.len() - 1 {
                assert(s[i] == t[i]);
            }
        }
    }
}

/// The largest element of a non-empty slice, copied out.
pub fn largest<T: PartialOrd + Copy>(list: &[T]) -> (r: T)
    requires
        list@.len() > 0,
    ensures
        list@.contains(r),
        T::obeys_partial_cmp_spec() ==> r == scan_largest(list@),
{
    let mut largest = list[0];
    let mut i: usize = 1;
    let ghost mut at: int = 0;
    while i < list.len()
        invariant
            1 <= i <= list@.len(),
            0 <= at < i,
            list@[at] == largest,
            T::obeys_partial_cmp_spec() ==> largest == scan_largest(list@.subrange(0, i as int)),
        decreases list@.len() - i,
    {
        let item = list[i];
        assert(list@.subrange(0, i + 1).drop_last() == list@.subrange(0, i as int));
        if item > largest {
            largest = item;
            proof {
                at = i as int;
            }
        }
        i = i + 1;
    }
    assert(list@.subrange(0, list@.len() as int) == list@);
    assert(list@[at] == largest);
    largest
}

/// A reference to the largest element of a non-empty slice.
pub fn largest_ref<T: PartialOrd>(list: &[T]) -> (r: &T)
    requires
        list@.len() > 0,
    ensures
        list@.contains(*r),
        T::obeys_partial_cmp_spec() ==> *r == scan_largest(list@),
{
    let mut largest = &list[0];
    let mut i: usize = 1;
    let ghost mut at: int = 0;
    while i < list.len()
        invariant
            1 <= i <= list@.len(),
            0 <= at < i,
            list@[at] == *largest,
            T::obeys_partial_cmp_spec() ==> *largest == scan_largest(list@.subrange(0, i as int)),
        decreases list@.len() - i,
    {
        let item = &list[i];
        assert(list@.subrange(0, i + 1).drop_last() == list@.subrange(0, i as int));
        if item > largest {
            largest = item;
            proof {
                at = i as int;
            }
        }
        i = i + 1;
    }
    assert(list@.subrange(0, list@.len() as int) == list@);
    assert(list@[at] == *largest);
    largest
}

} // verus!
