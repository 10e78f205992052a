//! Generic functions and types: the largest item of a list, the longer of two
//! texts, and a point whose coordinates may differ in type.

use vstd::laws_cmp::obeys_partial_cmp_spec_properties;
use vstd::prelude::*;
use vstd::std_specs::cmp::PartialOrdSpec;

verus! {

/// Whether `a` is greater than `b` by `T`'s comparison.
pub open spec fn greater<T: PartialOrd>(a: &T, b: &T) -> bool {
    a.partial_cmp_spec(b) == Some(core::cmp::Ordering::Greater)
}

/// A largest item of a non-empty list: an item of the list that no item is
/// greater than.
pub fn largest<T: PartialOrd>(list: &[T]) -> (r: &T)
    requires
        list@.len() > 0,
        T::obeys_partial_cmp_spec(),
        obeys_partial_cmp_spec_properties::<T>(),
    ensures
        exists|k: int| 0 <= k < list@.len() && list@[k] == *r,
        forall|i: int| 0 <= i < list@.len() ==> !greater(&#[trigger] list@[i], r),
{
    proof {
        reveal(obeys_partial_cmp_spec_properties);
    }
    let mut largest = &list[0];
    let mut at: usize = 0;
    let mut i: usize = 1;
    while i < list.len()
        invariant
            0 < i <= list@.len(),
            at < i,
            T::obeys_partial_cmp_spec(),
            forall|x: T, y: T, z: T|
                x.partial_cmp_spec(&y) == Some(core::cmp::Ordering::Greater) && #[trigger] y.partial_cmp_spec(&z)
                    == Some(core::cmp::Ordering::Greater) ==> #[trigger] x.partial_cmp_spec(&z) == Some(core::cmp::Ordering::Greater),
            forall|x: T, y: T| #[trigger] x.partial_cmp_spec(&y) == Some(core::cmp::Ordering::Less)
                <==> y.partial_cmp_spec(&x) == Some(core::cmp::Ordering::Greater),
            *largest == list@[at as int],
            forall|j: int| 0 <= j < i ==> !greater(&#[trigger] list@[j], largest),
        decreases list@.len() - i,
    {
        let item = &list[i];
        if item > largest {
            proof {
                assert forall|j: int| 0 <= j < i + 1 implies !greater(&#[trigger] list@[j], item) by {
                    if j < i && greater(&list@[j], item) {
                        assert(greater(&list@[j], largest));
                    }
                }
            }
            largest = item;
            at = i;
        }
        i = i + 1;
    }
    largest
}

/// The longer of two texts by length in bytes; the second on a tie.
pub fn longest<'a>(x: &'a str, y: &'a str) -> (r: &'a str)
    ensures
        r == (if x.len() > y.len() { x } else { y }),
{
    if x.len() > y.len() {
        x
    } else {
        y
    }
}

/// A point whose two coordinates may have different types.
pub struct Pair<X, Y> {
    pub x: X,
    pub y: Y,
}

impl<X1, Y1> Pair<X1, Y1> {
    /// This point's `x` with the other point's `y`.
    pub fn mixup<X2, Y2>(self, other: Pair<X2, Y2>) -> (r: Pair<X1, Y2>)
        ensures
            r.x == self.x,
            r.y == other.y,
    {
        Pair { x: self.x, y: other.y }
    }
}

} // verus!
