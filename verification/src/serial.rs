//! The serialised form of a set: its one byte.

use crate::days::ALL_DAYS_MASK;
use crate::weekdays::Weekdays;
use vstd::prelude::*;

verus! {

impl Weekdays {
    /// The byte that stands for the set when it is serialised.
    pub open spec fn spec_to_byte(&self) -> u8 {
        self.spec_bits()
    }

    /// The set that a serialised byte stands for.
    pub open spec fn spec_from_byte(byte: u8) -> Weekdays {
        Weekdays::spec_new(byte)
    }

    /// The byte that a serialiser writes for the set: its seven bits as they
    /// stand, the eighth clear.
    #[verifier::when_used_as_spec(spec_to_byte)]
    pub fn to_byte(&self) -> (byte: u8)
        ensures
            byte == self.spec_to_byte(),
            byte <= ALL_DAYS_MASK,
    {
        self.bits()
    }

    /// The set that a deserialiser makes of a byte. An eighth bit is dropped,
    /// not refused.
    #[verifier::when_used_as_spec(spec_from_byte)]
    pub fn from_byte(byte: u8) -> (r: Weekdays)
        ensures
            r == Weekdays::spec_from_byte(byte),
    {
        Weekdays::new(byte)
    }
}

} // verus!
