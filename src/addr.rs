//! Arithmetic and value-checking exercises.
use vstd::prelude::*;

verus! {

/// Sum of two unsigned integers; the sum must fit in a `u64`.
pub fn add(left: u64, right: u64) -> (r: u64)
    requires
        left + right <= u64::MAX,
    ensures
        r == left + right,
{
    left + right
}

/// The argument plus two; the result must fit in an `i32`.
pub fn add_two(arg: i32) -> (r: i32)
    requires
        arg + 2 <= i32::MAX,
    ensures
        r == arg + 2,
{
    arg + 2
}

/// Always fails, with the message `error!`.
pub fn failed() -> (r: Result<(), String>)
    ensures
        r matches Err(e) && e@ == "error!"@,
{
    Err(String::from_str("error!"))
}

/// The lowest value a guess may take.
pub const GUESS_MIN: i32 = 1;

/// The highest value a guess may take.
pub const GUESS_MAX: i32 = 100;

/// A guess that always lies between `GUESS_MIN` and `GUESS_MAX`, both included.
pub struct Guess {
    value: i32,
}

impl Guess {
    /// The value held.
    pub closed spec fn spec_value(&self) -> i32 {
        self.value
    }

    /// Every guess holds a value in range.
    #[verifier::type_invariant]
    spec fn wf(&self) -> bool {
        GUESS_MIN <= self.value <= GUESS_MAX
    }

    /// Makes a guess of a value in range.
    pub fn new(value: i32) -> (r: Guess)
        requires
            GUESS_MIN <= value <= GUESS_MAX,
        ensures
            r.spec_value() == value,
    {
        Guess { value }
    }

    /// The value held.
    pub fn value(&self) -> (r: i32)
        ensures
            r == self.spec_value(),
            GUESS_MIN <= r <= GUESS_MAX,
    {
        proof {
            use_type_invariant(self);
        }
        self.value
    }
}

/// An axis-aligned rectangle given by its side lengths.
pub struct Rectangle {
    pub width: u32,
    pub height: u32,
}

impl Rectangle {
    /// Whether `other` fits strictly inside `self`: both sides are shorter.
    pub fn can_hold(&self, other: &Rectangle) -> (r: bool)
        ensures
            r == (self.width > other.width && self.height > other.height),
    {
        self.width > other.width && self.height > other.height
    }
}

} // verus!
