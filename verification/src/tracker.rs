//! Warns a messenger as a tracked value approaches its maximum. The
//! thresholds are the fractions three quarters, nine tenths, and the whole
//! of the maximum, compared exactly in integers.

use vstd::prelude::*;

verus! {

/// Anything that can deliver a warning message; implementors decide what
/// delivering means.
pub trait Messenger {
    fn send(&self, msg: &str);
}

/// The message owed for a value measured against a maximum: the over-quota
/// error at or above the maximum, the urgent warning at or above nine
/// tenths of it, the plain warning at or above three quarters, and nothing
/// below that. A value of zero against a maximum of zero is no quota at
/// all and warrants no message.
pub fn quota_message(value: usize, max: usize) -> (r: Option<&'static str>)
    ensures
        max == 0 && value == 0 ==> r is None,
        value >= max && !(max == 0 && value == 0) ==> r is Some && r->0@
            == "Error: You are over your quota!"@,
        value < max && 10 * value >= 9 * max ==> r is Some && r->0@
            == "Urgent warning: You've used up over 90& of your quota!"@,
        value < max && 10 * value < 9 * max && 4 * value >= 3 * max ==> r is Some && r->0@
            == "Warning: You've used up over 75% of your quota!"@,
        value < max && 4 * value < 3 * max ==> r is None,
{
    if max == 0 && value == 0 {
        return None;
    }
    let v = value as u128;
    let m = max as u128;
    if v >= m {
        Some("Error: You are over your quota!")
    } else if v * 10 >= m * 9 {
        Some("Urgent warning: You've used up over 90& of your quota!")
    } else if v * 4 >= m * 3 {
        Some("Warning: You've used up over 75% of your quota!")
    } else {
        None
    }
}

/// Watches a value against a maximum and warns through its messenger when
/// the value crosses three quarters, nine tenths, or all of the maximum.
pub struct LimitTracker<'a, T: Messenger> {
    messenger: &'a T,
    value: usize,
    max: usize,
}

impl<'a, T> LimitTracker<'a, T> where T: Messenger {
    /// The value last set.
    pub closed spec fn spec_value(&self) -> usize {
        self.value
    }

    /// The maximum the value is measured against.
    pub closed spec fn spec_max(&self) -> usize {
        self.max
    }

    /// A tracker starting at zero.
    pub fn new(messenger: &T, max: usize) -> (r: LimitTracker<T>)
        ensures
            r.spec_value() == 0,
            r.spec_max() == max,
    {
        LimitTracker { messenger, value: 0, max }
    }

    /// Stores the new value and hands the messenger exactly the message
    /// [`quota_message`] picks for it, when it picks one. What the
    /// messenger does with it is the implementor's business; only the
    /// choice of message is contracted, on `quota_message` itself.
    pub fn set_value(&mut self, value: usize)
        ensures
            final(self).spec_value() == value,
            final(self).spec_max() == old(self).spec_max(),
    {
        self.value = value;

        match quota_message(value, self.max) {
            Some(msg) => self.messenger.send(msg),
            None => (),
        }
    }
}

} // verus!
