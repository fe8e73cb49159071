//! The order of sets: that of their bytes read as numbers.

use crate::weekdays::Weekdays;
use core::cmp::Ordering;
use vstd::prelude::*;
use vstd::std_specs::cmp::PartialOrdSpecImpl;

verus! {

/// How two bytes compare as numbers.
pub open spec fn byte_order(a: u8, b: u8) -> Ordering {
    if a < b {
        Ordering::Less
    } else if a == b {
        Ordering::Equal
    } else {
        Ordering::Greater
    }
}

impl PartialOrd for Weekdays {
    /// Compares the two bytes as numbers: the set with the smaller byte sorts first.
    fn partial_cmp(&self, other: &Self) -> (r: Option<Ordering>) {
        let a: u8 = self.bits();
        let b: u8 = other.bits();
        if a < b {
            Some(Ordering::Less)
        } else if a == b {
            Some(Ordering::Equal)
        } else {
            Some(Ordering::Greater)
        }
    }
}

impl PartialOrdSpecImpl for Weekdays {
    open spec fn obeys_partial_cmp_spec() -> bool {
        true
    }

    open spec fn partial_cmp_spec(&self, other: &Self) -> Option<Ordering> {
        Some(byte_order(self.spec_bits(), other.spec_bits()))
    }
}

} // verus!
