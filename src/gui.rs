//! A screen of components of different kinds behind one drawing trait.

use vstd::prelude::*;

verus! {

/// A component that can draw itself.
pub trait Draw {
    fn draw(&self);
}

/// Components of any kinds, drawn in order.
pub struct Screen {
    pub components: Vec<Box<dyn Draw>>,
}

impl Screen {
    /// Draws each component once, in order.
    pub fn run(&self) {
        let mut i: usize = 0;
        while i < self.components.len()
            invariant
                i <= self.components@.len(),
            decreases self.components@.len() - i,
        {
            self.components[i].draw();
            i = i + 1;
        }
    }
}

pub struct Button {
    pub width: u32,
    pub height: u32,
    pub label: String,
}

impl Draw for Button {
    fn draw(&self) {
    }
}

pub struct SelectBox {
    pub width: u32,
    pub height: u32,
    pub options: Vec<String>,
}

impl Draw for SelectBox {
    fn draw(&self) {
    }
}

} // verus!
