//! Rendering a set as binary digits, Monday first.

use crate::days::has_day;
use crate::weekdays::Weekdays;
use vstd::prelude::*;
use vstd::string::StringExecFns;

verus! {

/// The digit that stands for day `d` of `bits`: `1` if it is set, else `0`.
pub open spec fn day_digit(bits: u8, d: int) -> char {
    if has_day(bits, d) {
        '1'
    } else {
        '0'
    }
}

/// The seven digits of `bits`, Monday first, with `_` between Friday and Saturday.
pub open spec fn display_text(bits: u8) -> Seq<char> {
    seq![
        day_digit(bits, 0),
        day_digit(bits, 1),
        day_digit(bits, 2),
        day_digit(bits, 3),
        day_digit(bits, 4),
        '_',
        day_digit(bits, 5),
        day_digit(bits, 6),
    ]
}

/// The seven digits of `bits`, Monday first, with `_` between Wednesday and
/// Thursday, inside `Weekdays(` and `)`.
pub open spec fn debug_text(bits: u8) -> Seq<char> {
    seq![
        'W',
        'e',
        'e',
        'k',
        'd',
        'a',
        'y',
        's',
        '(',
        day_digit(bits, 0),
        day_digit(bits, 1),
        day_digit(bits, 2),
        '_',
        day_digit(bits, 3),
        day_digit(bits, 4),
        day_digit(bits, 5),
        day_digit(bits, 6),
        ')',
    ]
}

/// Appends the digit of day `d` of `bits` to `text`.
fn push_day_digit(text: &mut String, bits: u8, d: u8)
    requires
        d < 7,
    ensures
        final(text)@ == old(text)@.push(day_digit(bits, d as int)),
{
    proof {
        reveal_strlit("1");
        reveal_strlit("0");
    }
    if bits & (0b100_0000u8 >> d) != 0 {
        text.append("1");
        assert(text@ =~= old(text)@.push('1'));
    } else {
        text.append("0");
        assert(text@ =~= old(text)@.push('0'));
    }
}

impl Weekdays {
    /// The set as seven binary digits, Monday first, the five weekdays parted
    /// from the two weekend days by `_`: Monday and Sunday give `10000_01`.
    pub fn to_string(&self) -> (text: String)
        ensures
            text@ == display_text(self.spec_bits()),
    {
        let bits: u8 = self.bits();
        let mut text = String::new();
        push_day_digit(&mut text, bits, 0);
        push_day_digit(&mut text, bits, 1);
        push_day_digit(&mut text, bits, 2);
        push_day_digit(&mut text, bits, 3);
        push_day_digit(&mut text, bits, 4);
        proof {
            reveal_strlit("_");
        }
        text.append("_");
        push_day_digit(&mut text, bits, 5);
        push_day_digit(&mut text, bits, 6);
        assert(text@ =~= display_text(bits));
        text
    }

    /// The set as a binary literal of its byte, inside the type's name:
    /// Monday and Sunday give `Weekdays(100_0001)`.
    pub fn to_debug_string(&self) -> (text: String)
        ensures
            text@ == debug_text(self.spec_bits()),
    {
        let bits: u8 = self.bits();
        proof {
            reveal_strlit("Weekdays(");
            reveal_strlit("_");
            reveal_strlit(")");
        }
        let mut text = String::from_str("Weekdays(");
        push_day_digit(&mut text, bits, 0);
        push_day_digit(&mut text, bits, 1);
        push_day_digit(&mut text, bits, 2);
        text.append("_");
        push_day_digit(&mut text, bits, 3);
        push_day_digit(&mut text, bits, 4);
        push_day_digit(&mut text, bits, 5);
        push_day_digit(&mut text, bits, 6);
        text.append(")");
        assert(text@ =~= debug_text(bits));
        text
    }
}

} // verus!
