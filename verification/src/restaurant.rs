//! The module-system exercises, flattened into one module: the breakfast
//! menu of the back of house and the waitlist of the front of house.

use vstd::prelude::*;
use vstd::string::StringExecFns;

verus! {

/// A breakfast order; the customer picks the toast, the kitchen picks
/// the fruit.
pub struct Breakfast {
    pub toast: String,
    seasonal_fruit: String,
}

impl Breakfast {
    /// The chosen toast.
    pub closed spec fn spec_toast(&self) -> Seq<char> {
        self.toast@
    }

    /// The fruit the kitchen chose.
    pub closed spec fn spec_fruit(&self) -> Seq<char> {
        self.seasonal_fruit@
    }

    /// The summer breakfast: the requested toast, served with peaches.
    pub fn summer(toast: &str) -> (r: Breakfast)
        ensures
            r.spec_toast() == toast@,
            r.spec_fruit() == "peaches"@,
    {
        Breakfast { toast: String::from_str(toast), seasonal_fruit: String::from_str("peaches") }
    }
}

/// The appetizers on offer.
pub enum Appetizer {
    Soup,
    Salad,
}

/// Puts a party on the waitlist; the exercise leaves the body empty.
pub fn add_to_waitlist() {
}

/// Serves an order; the exercise leaves the body empty.
pub fn serve_order() {
}

/// Fixes a wrong order by serving the right one.
pub fn fix_incorrect_order() {
    serve_order();
}

} // verus!
