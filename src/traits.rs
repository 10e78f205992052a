//! Traits at work: operator overloading on a point, methods of the same name
//! in several traits, associated functions, and a newtype wrapper with its
//! own text form.

use crate::text::{push_repeated, push_signed_decimal, signed_decimal_spec};
use vstd::prelude::*;

verus! {

/// A point on the integer grid.
#[derive(Debug, Copy, Clone, PartialEq, Eq, Structural)]
pub struct Point {
    pub x: i32,
    pub y: i32,
}

impl core::ops::Add for Point {
    type Output = Point;

    /// The coordinate-wise sum; a sum that leaves `i32` is refused, as the
    /// integer addition refuses it.
    fn add(self, other: Point) -> (r: Point) {
        Point { x: self.x + other.x, y: self.y + other.y }
    }
}

impl vstd::std_specs::ops::AddSpecImpl for Point {
    open spec fn obeys_add_spec() -> bool {
        true
    }

    open spec fn add_req(self, other: Point) -> bool {
        i32::MIN <= self.x + other.x <= i32::MAX && i32::MIN <= self.y + other.y <= i32::MAX
    }

    open spec fn add_spec(self, other: Point) -> Point {
        Point { x: (self.x + other.x) as i32, y: (self.y + other.y) as i32 }
    }
}

impl Point {
    /// The point written as `(x, y)`.
    pub open spec fn text(self) -> Seq<char> {
        "("@ + signed_decimal_spec(self.x as int) + ", "@ + signed_decimal_spec(self.y as int) + ")"@
    }

    pub fn to_string(&self) -> (r: String)
        ensures
            r@ == self.text(),
    {
        let mut r = String::from_str("(");
        push_signed_decimal(&mut r, self.x as i64);
        r.append(", ");
        push_signed_decimal(&mut r, self.y as i64);
        r.append(")");
        r
    }
}

/// `n` copies of `c`.
pub open spec fn repeated(c: char, n: nat) -> Seq<char> {
    Seq::new(n, |i: int| c)
}

/// The five lines of a frame of asterisks around `text`, one space wide
/// inside; the width follows the text's length in bytes.
pub open spec fn outline_spec(text: Seq<char>, width: nat) -> Seq<Seq<char>> {
    seq![
        repeated('*', width + 4),
        seq!['*'] + repeated(' ', width + 2) + seq!['*'],
        "* "@ + text + " *"@,
        seq!['*'] + repeated(' ', width + 2) + seq!['*'],
        repeated('*', width + 4),
    ]
}

/// The lines that frame `text` in asterisks.
pub fn outline(text: &str) -> (r: Vec<String>)
    requires
        text.len() + 4 <= usize::MAX,
    ensures
        r@.map_values(|l: String| l@) == outline_spec(text@, text.len() as nat),
{
    proof {
        reveal_strlit("*");
        reveal_strlit(" ");
    }
    let width = text.len();
    let mut top = String::new();
    push_repeated(&mut top, "*", width + 4);
    let mut blank = String::from_str("*");
    push_repeated(&mut blank, " ", width + 2);
    blank.append("*");
    let mut middle = String::from_str("* ");
    middle.append(text);
    middle.append(" *");
    let mut bottom = String::new();
    push_repeated(&mut bottom, "*", width + 4);
    let mut blank2 = String::from_str("*");
    push_repeated(&mut blank2, " ", width + 2);
    blank2.append("*");
    let mut r: Vec<String> = Vec::new();
    r.push(top);
    r.push(blank);
    r.push(middle);
    r.push(blank2);
    r.push(bottom);
    proof {
        let w = width as nat;
        assert(Seq::new((width + 4) as nat, |i: int| "*"@[0]) =~= repeated('*', w + 4));
        assert(Seq::new((width + 2) as nat, |i: int| " "@[0]) =~= repeated(' ', w + 2));
        assert(seq!['*'] =~= "*"@);
        assert(r@.map_values(|l: String| l@) =~= outline_spec(text@, w));
    }
    r
}

pub trait Pilot {
    /// What a pilot says on taking off.
    spec fn pilot_call(&self) -> Seq<char>;

    fn fly(&self) -> (r: &'static str)
        ensures
            r@ == self.pilot_call(),
    ;
}

pub trait Wizard {
    /// What a wizard says on taking off.
    spec fn wizard_call(&self) -> Seq<char>;

    fn fly(&self) -> (r: &'static str)
        ensures
            r@ == self.wizard_call(),
    ;
}

pub struct Human;

impl Pilot for Human {
    open spec fn pilot_call(&self) -> Seq<char> {
        "This is your captain speaking."@
    }

    fn fly(&self) -> (r: &'static str) {
        "This is your captain speaking."
    }
}

impl Wizard for Human {
    open spec fn wizard_call(&self) -> Seq<char> {
        "Up!"@
    }

    fn fly(&self) -> (r: &'static str) {
        "Up!"
    }
}

impl Human {
    /// What a human says on trying to fly.
    pub fn fly(&self) -> (r: &'static str)
        ensures
            r@ == "*waving arms furiously*"@,
    {
        "*waving arms furiously*"
    }
}

pub trait Animal {
    /// The name of the animal's young.
    spec fn baby_name_text() -> Seq<char>;

    fn baby_name() -> (r: String)
        ensures
            r@ == Self::baby_name_text(),
    ;
}

pub struct Dog;

impl Animal for Dog {
    open spec fn baby_name_text() -> Seq<char> {
        "puppy"@
    }

    fn baby_name() -> (r: String) {
        String::from_str("puppy")
    }
}

impl Dog {
    /// The name given to this dog's young.
    pub fn baby_name() -> (r: String)
        ensures
            r@ == "Sofie"@,
    {
        String::from_str("Sofie")
    }
}

/// The texts of `v` joined by `", "`.
pub open spec fn joined(v: Seq<Seq<char>>) -> Seq<char>
    decreases v.len(),
{
    if v.len() == 0 {
        Seq::empty()
    } else if v.len() == 1 {
        v[0]
    } else {
        joined(v.drop_last()) + ", "@ + v.last()
    }
}

/// A list of strings with a text form of its own.
pub struct VecWrapper(pub Vec<String>);

impl VecWrapper {
    /// The strings between brackets, separated by `", "`.
    pub fn to_string(&self) -> (r: String)
        ensures
            r@ == "["@ + joined(self.0@.map_values(|s: String| s@)) + "]"@,
    {
        let ghost all = self.0@.map_values(|s: String| s@);
        let mut body = String::new();
        let mut i: usize = 0;
        while i < self.0.len()
            invariant
                i <= self.0@.len(),
                all == self.0@.map_values(|s: String| s@),
                body@ == joined(all.take(i as int)),
            decreases self.0@.len() - i,
        {
            let ghost before = body@;
            if i > 0 {
                body.append(", ");
            }
            body.append(self.0[i].as_str());
            proof {
                let t = all.take(i + 1 as int);
                assert(t.drop_last() =~= all.take(i as int));
                assert(t.last() == self.0@[i as int]@);
                if i == 0 {
                    assert(body@ =~= t[0]);
                } else {
                    assert(body@ =~= before + ", "@ + t.last());
                }
            }
            i = i + 1;
        }
        assert(all.take(i as int) =~= all);
        let mut r = String::from_str("[");
        r.append(body.as_str());
        r.append("]");
        r
    }
}

} // verus!
