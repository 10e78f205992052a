//! A shirt giveaway: a user gets the color they ask for, or else the color
//! the store has most of.

use vstd::prelude::*;

verus! {

#[derive(Debug, PartialEq, Eq, Copy, Clone, Structural)]
pub enum ShirtColor {
    Red,
    Blue,
}

/// The number of shirts of color `c` in `shirts`.
pub open spec fn count_of(shirts: Seq<ShirtColor>, c: ShirtColor) -> nat
    decreases shirts.len(),
{
    if shirts.len() == 0 {
        0
    } else {
        count_of(shirts.drop_last(), c) + if shirts.last() == c { 1nat } else { 0nat }
    }
}

pub struct Inventory {
    pub shirts: Vec<ShirtColor>,
}

impl Inventory {
    /// The color the user prefers, or else the most stocked one.
    pub fn giveaway(&self, user_preference: Option<ShirtColor>) -> (r: ShirtColor)
        ensures
            user_preference matches Some(c) ==> r == c,
            user_preference is None ==> r == (if count_of(self.shirts@, ShirtColor::Red) > count_of(
                self.shirts@,
                ShirtColor::Blue,
            ) {
                ShirtColor::Red
            } else {
                ShirtColor::Blue
            }),
    {
        match user_preference {
            Some(c) => c,
            None => self.most_stocked(),
        }
    }

    /// Red when there are more red shirts than blue ones, else blue.
    pub fn most_stocked(&self) -> (r: ShirtColor)
        ensures
            r == (if count_of(self.shirts@, ShirtColor::Red) > count_of(self.shirts@, ShirtColor::Blue) {
                ShirtColor::Red
            } else {
                ShirtColor::Blue
            }),
    {
        let mut num_red: usize = 0;
        let mut num_blue: usize = 0;
        let mut i: usize = 0;
        while i < self.shirts.len()
            invariant
                i <= self.shirts@.len(),
                num_red == count_of(self.shirts@.take(i as int), ShirtColor::Red),
                num_blue == count_of(self.shirts@.take(i as int), ShirtColor::Blue),
                num_red + num_blue == i,
            decreases self.shirts@.len() - i,
        {
            assert(self.shirts@.take(i + 1 as int).drop_last() =~= self.shirts@.take(i as int));
            match self.shirts[i] {
                ShirtColor::Red => num_red = num_red + 1,
                ShirtColor::Blue => num_blue = num_blue + 1,
            }
            i = i + 1;
        }
        assert(self.shirts@.take(i as int) =~= self.shirts@);
        if num_red > num_blue {
            ShirtColor::Red
        } else {
            ShirtColor::Blue
        }
    }
}

} // verus!
