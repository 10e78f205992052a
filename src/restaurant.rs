//! A restaurant's front and back of house: breakfasts with a seasonal fruit
//! that the customer cannot choose, and a waitlist.

use vstd::prelude::*;

verus! {

pub enum Appetizer {
    Soup,
    Salad,
}

/// A breakfast: the customer picks the toast; the kitchen picks the fruit.
pub struct Breakfast {
    pub toast: String,
    seasonal_fruit: String,
}

impl Breakfast {
    /// The toast the customer picked.
    pub closed spec fn toast_text(&self) -> Seq<char> {
        self.toast@
    }

    /// The fruit that comes with the breakfast.
    pub closed spec fn fruit(&self) -> Seq<char> {
        self.seasonal_fruit@
    }

    /// A summer breakfast with the given toast; its fruit is peaches.
    pub fn summer(toast: &str) -> (r: Breakfast)
        ensures
            r.toast_text() == toast@,
            r.fruit() == "peaches"@,
    {
        Breakfast { toast: String::from_str(toast), seasonal_fruit: String::from_str("peaches") }
    }

    pub fn seasonal_fruit(&self) -> (r: &str)
        ensures
            r@ == self.fruit(),
    {
        self.seasonal_fruit.as_str()
    }
}

/// Puts a party on the waitlist; the waitlist keeps no state yet.
pub fn add_to_waitlist() {
}

pub fn eat_at_restaurant() {
    add_to_waitlist();
}

pub fn eat_at_restaurant1() {
    add_to_waitlist();
}

pub fn eat_at_restaurant2() {
    add_to_waitlist();
}

/// A summer breakfast ordered with rye toast and changed to wheat.
pub fn order_breakfast() -> (r: Breakfast)
    ensures
        r.toast_text() == "Wheat"@,
        r.fruit() == "peaches"@,
{
    let mut meal = Breakfast::summer("Rye");
    meal.toast = String::from_str("Wheat");
    meal
}

} // verus!
