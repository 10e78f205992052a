//! Small checked arithmetic, a greeting, and a guess kept within bounds.

use vstd::prelude::*;

verus! {

/// `a + 2`; the sum must fit in an `i32`.
pub fn add_two(a: i32) -> (r: i32)
    requires
        a <= i32::MAX - 2,
    ensures
        r == a + 2,
{
    internal_adder(a, 2)
}

/// `a + b`; the sum must fit in an `i32`.
pub fn internal_adder(a: i32, b: i32) -> (r: i32)
    requires
        i32::MIN <= a + b <= i32::MAX,
    ensures
        r == a + b,
{
    a + b
}

/// A fixed greeting; the name is not used.
pub fn greeting(name: &str) -> (r: String)
    ensures
        r@ == "Hello!"@,
{
    String::from_str("Hello!")
}

/// A guess between 1 and 100 inclusive.
#[derive(Debug)]
pub struct Guess {
    value: i32,
}

impl Guess {
    pub closed spec fn spec_value(&self) -> i32 {
        self.value
    }

    pub fn new(value: i32) -> (r: Guess)
        requires
            1 <= value <= 100,
        ensures
            r.spec_value() == value,
    {
        Guess { value }
    }

    pub fn value(&self) -> (r: i32)
        ensures
            r == self.spec_value(),
    {
        self.value
    }
}

} // verus!
