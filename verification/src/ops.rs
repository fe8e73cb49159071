//! Operator bindings for the set algebra.
//!
//! `+` and `|` are union, `&` is intersection, `^` is symmetric difference,
//! `-` is difference and `!` is complement. The assigning forms replace the
//! left operand by the result.

use crate::weekdays::Weekdays;
use core::ops::{
    Add, AddAssign, BitAnd, BitAndAssign, BitOr, BitOrAssign, BitXor, BitXorAssign, Not, Sub,
    SubAssign,
};
use vstd::prelude::*;
use vstd::std_specs::ops::{
    AddSpecImpl, BitAndSpecImpl, BitOrSpecImpl, BitXorSpecImpl, NotSpecImpl, SubSpecImpl,
};

verus! {

impl Add for Weekdays {
    type Output = Weekdays;

    /// Union: adding a day that is already there changes nothing.
    fn add(self, rhs: Weekdays) -> (r: Weekdays) {
        self.union(rhs)
    }
}

impl AddSpecImpl for Weekdays {
    open spec fn obeys_add_spec() -> bool {
        true
    }

    open spec fn add_req(self, rhs: Weekdays) -> bool {
        true
    }

    open spec fn add_spec(self, rhs: Weekdays) -> Weekdays {
        self.spec_union(rhs)
    }
}

impl AddAssign for Weekdays {
    /// Replaces `self` by its union with `rhs`.
    fn add_assign(&mut self, rhs: Weekdays)
        ensures
            *final(self) == old(self).spec_union(rhs),
    {
        *self = self.union(rhs);
    }
}

impl BitAnd for Weekdays {
    type Output = Weekdays;

    /// Intersection.
    fn bitand(self, rhs: Weekdays) -> (r: Weekdays) {
        self.intersect(rhs)
    }
}

impl BitAndSpecImpl for Weekdays {
    open spec fn obeys_bitand_spec() -> bool {
        true
    }

    open spec fn bitand_req(self, rhs: Weekdays) -> bool {
        true
    }

    open spec fn bitand_spec(self, rhs: Weekdays) -> Weekdays {
        self.spec_intersect(rhs)
    }
}

impl BitAndAssign for Weekdays {
    /// Replaces `self` by its intersection with `rhs`.
    fn bitand_assign(&mut self, rhs: Weekdays)
        ensures
            *final(self) == old(self).spec_intersect(rhs),
    {
        *self = self.intersect(rhs);
    }
}

impl BitOr for Weekdays {
    type Output = Weekdays;

    /// Union.
    fn bitor(self, rhs: Weekdays) -> (r: Weekdays) {
        self.union(rhs)
    }
}

impl BitOrSpecImpl for Weekdays {
    open spec fn obeys_bitor_spec() -> bool {
        true
    }

    open spec fn bitor_req(self, rhs: Weekdays) -> bool {
        true
    }

    open spec fn bitor_spec(self, rhs: Weekdays) -> Weekdays {
        self.spec_union(rhs)
    }
}

impl BitOrAssign for Weekdays {
    /// Replaces `self` by its union with `rhs`.
    fn bitor_assign(&mut self, rhs: Weekdays)
        ensures
            *final(self) == old(self).spec_union(rhs),
    {
        *self = self.union(rhs);
    }
}

impl BitXor for Weekdays {
    type Output = Weekdays;

    /// Symmetric difference.
    fn bitxor(self, rhs: Weekdays) -> (r: Weekdays) {
        self.symmetric_difference(rhs)
    }
}

impl BitXorSpecImpl for Weekdays {
    open spec fn obeys_bitxor_spec() -> bool {
        true
    }

    open spec fn bitxor_req(self, rhs: Weekdays) -> bool {
        true
    }

    open spec fn bitxor_spec(self, rhs: Weekdays) -> Weekdays {
        self.spec_symmetric_difference(rhs)
    }
}

impl BitXorAssign for Weekdays {
    /// Replaces `self` by its symmetric difference with `rhs`.
    fn bitxor_assign(&mut self, rhs: Weekdays)
        ensures
            *final(self) == old(self).spec_symmetric_difference(rhs),
    {
        *self = self.symmetric_difference(rhs);
    }
}

impl Sub for Weekdays {
    type Output = Weekdays;

    /// Difference: removing a day that is not there changes nothing.
    fn sub(self, rhs: Weekdays) -> (r: Weekdays) {
        self.difference(rhs)
    }
}

impl SubSpecImpl for Weekdays {
    open spec fn obeys_sub_spec() -> bool {
        true
    }

    open spec fn sub_req(self, rhs: Weekdays) -> bool {
        true
    }

    open spec fn sub_spec(self, rhs: Weekdays) -> Weekdays {
        self.spec_difference(rhs)
    }
}

impl SubAssign for Weekdays {
    /// Replaces `self` by what is left of it without the days of `rhs`.
    fn sub_assign(&mut self, rhs: Weekdays)
        ensures
            *final(self) == old(self).spec_difference(rhs),
    {
        *self = self.difference(rhs);
    }
}

impl Not for Weekdays {
    type Output = Weekdays;

    /// Complement within the week.
    fn not(self) -> (r: Weekdays) {
        self.complement()
    }
}

impl NotSpecImpl for Weekdays {
    open spec fn obeys_not_spec() -> bool {
        true
    }

    open spec fn not_req(self) -> bool {
        true
    }

    open spec fn not_spec(self) -> Weekdays {
        self.spec_complement()
    }
}

} // verus!
