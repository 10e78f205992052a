//! A tracker of a value against a quota, which warns through a messenger as
//! the value nears and passes the quota.

use vstd::prelude::*;

verus! {

/// Where the tracker's warnings go.
pub trait Messenger {
    fn send(&self, msg: &str);
}

pub const OVER_QUOTA: &'static str = "Error: You are over your quota!";

pub const URGENT_WARNING: &'static str = "Urgent warning: You've used up over 90% of your quota!";

pub const WARNING: &'static str = "Warning: You've used up over 75% of your quota!";

/// The warning for `value` against `max`: at or over the quota, at or over
/// 90% of it, at or over 75% of it, or none. A zero quota warns of any value
/// but zero.
pub open spec fn quota_spec(value: nat, max: nat) -> Option<Seq<char>> {
    if max == 0 {
        if value == 0 { None } else { Some(OVER_QUOTA@) }
    } else if value >= max {
        Some(OVER_QUOTA@)
    } else if 10 * value >= 9 * max {
        Some(URGENT_WARNING@)
    } else if 4 * value >= 3 * max {
        Some(WARNING@)
    } else {
        None
    }
}

/// The warning due for `value` against the quota `max`.
pub fn quota_message(value: usize, max: usize) -> (r: Option<&'static str>)
    ensures
        match r {
            Some(m) => quota_spec(value as nat, max as nat) == Some(m@),
            None => quota_spec(value as nat, max as nat) is None,
        },
{
    let v = value as u128;
    let m = max as u128;
    if max == 0 {
        if value == 0 { None } else { Some(OVER_QUOTA) }
    } else if v >= m {
        Some(OVER_QUOTA)
    } else if 10 * v >= 9 * m {
        Some(URGENT_WARNING)
    } else if 4 * v >= 3 * m {
        Some(WARNING)
    } else {
        None
    }
}

pub struct LimitTracker<'a, T: Messenger> {
    messenger: &'a T,
    value: usize,
    max: usize,
}

impl<'a, T: Messenger> LimitTracker<'a, T> {
    pub closed spec fn spec_value(&self) -> usize {
        self.value
    }

    pub closed spec fn spec_max(&self) -> usize {
        self.max
    }

    pub closed spec fn spec_messenger(&self) -> &'a T {
        self.messenger
    }

    /// A tracker at zero against the quota `max`.
    pub fn new(messenger: &'a T, max: usize) -> (r: LimitTracker<'a, T>)
        ensures
            r.spec_value() == 0,
            r.spec_max() == max,
            r.spec_messenger() == messenger,
    {
        LimitTracker { messenger, value: 0, max }
    }

    /// Sets the value and sends the warning that `quota_message` gives for it,
    /// if any.
    pub fn set_value(&mut self, value: usize)
        ensures
            final(self).spec_value() == value,
            final(self).spec_max() == old(self).spec_max(),
            final(self).spec_messenger() == old(self).spec_messenger(),
    {
        self.value = value;
        if let Some(msg) = quota_message(self.value, self.max) {
            self.messenger.send(msg);
        }
    }
}

} // verus!
