//! Conversions between sets of days and the calendar's `chrono::Weekday`.

use crate::bits::lemma_day_bits;
use crate::iter::{day_numbers, lemma_single_day_value, single_day};
use crate::days::has_day;
use crate::weekdays::Weekdays;
use chrono::Weekday;
use vstd::prelude::*;
use vstd::std_specs::convert::FromSpecImpl;

verus! {

/// `chrono::Weekday`: an enum of the seven days, Monday first, without fields.
/// Its variants are read as they stand; nothing is claimed of its methods.
#[verifier::external_type_specification]
pub struct ExWeekday(chrono::Weekday);

/// The number of a calendar day, counting from Monday = 0.
pub open spec fn weekday_number(day: Weekday) -> int {
    match day {
        Weekday::Mon => 0,
        Weekday::Tue => 1,
        Weekday::Wed => 2,
        Weekday::Thu => 3,
        Weekday::Fri => 4,
        Weekday::Sat => 5,
        Weekday::Sun => 6,
    }
}

/// The calendar day with number `d`, counting from Monday = 0. A number
/// below the week stands for Monday and one above it for Sunday; no contract
/// applies it to such a number.
pub open spec fn weekday_of(d: int) -> Weekday {
    if d <= 0 {
        Weekday::Mon
    } else if d == 1 {
        Weekday::Tue
    } else if d == 2 {
        Weekday::Wed
    } else if d == 3 {
        Weekday::Thu
    } else if d == 4 {
        Weekday::Fri
    } else if d == 5 {
        Weekday::Sat
    } else {
        Weekday::Sun
    }
}

/// The calendar days of `bits` from day `from` on, Monday first.
pub open spec fn weekdays_from(bits: u8, from: int) -> Seq<Weekday> {
    day_numbers(bits, from).map_values(|d: int| weekday_of(d))
}

/// How `weekdays_from` goes from one day to the next.
pub proof fn lemma_weekdays_from_step(bits: u8, from: int)
    ensures
        from < 0 || from >= 7 ==> weekdays_from(bits, from) == Seq::<Weekday>::empty(),
        has_day(bits, from) ==> weekdays_from(bits, from) == seq![weekday_of(from)]
            + weekdays_from(bits, from + 1),
        0 <= from < 7 && !has_day(bits, from) ==> weekdays_from(bits, from) == weekdays_from(
            bits,
            from + 1,
        ),
{
    if from < 0 || from >= 7 {
        assert(weekdays_from(bits, from) =~= Seq::<Weekday>::empty());
    } else if has_day(bits, from) {
        assert(weekdays_from(bits, from) =~= seq![weekday_of(from)] + weekdays_from(
            bits,
            from + 1,
        ));
    }
}

impl From<Weekday> for Weekdays {
    /// The set that holds the one calendar day.
    fn from(day: Weekday) -> (r: Weekdays) {
        let r = match day {
            Weekday::Mon => Weekdays::monday(),
            Weekday::Tue => Weekdays::tuesday(),
            Weekday::Wed => Weekdays::wednesday(),
            Weekday::Thu => Weekdays::thursday(),
            Weekday::Fri => Weekdays::friday(),
            Weekday::Sat => Weekdays::saturday(),
            Weekday::Sun => Weekdays::sunday(),
        };
        proof {
            lemma_day_bits();
            lemma_single_day_value(weekday_number(day), r);
            Weekdays::lemma_representation(r, single_day(weekday_number(day)), 0);
        }
        r
    }
}

impl FromSpecImpl<Weekday> for Weekdays {
    open spec fn obeys_from_spec() -> bool {
        true
    }

    open spec fn from_spec(day: Weekday) -> Weekdays {
        single_day(weekday_number(day))
    }
}

impl Weekdays {
    /// The calendar days of the set, Monday first.
    pub open spec fn spec_to_chrono_vec(&self) -> Seq<Weekday> {
        weekdays_from(self.spec_bits(), 0)
    }

    /// The calendar days of the set, Monday first.
    pub fn to_chrono_vec(&self) -> (v: Vec<Weekday>)
        ensures
            v@ == self.spec_to_chrono_vec(),
    {
        let all: [Weekday; 7] = [
            Weekday::Mon,
            Weekday::Tue,
            Weekday::Wed,
            Weekday::Thu,
            Weekday::Fri,
            Weekday::Sat,
            Weekday::Sun,
        ];
        let mut v: Vec<Weekday> = Vec::new();
        let mut i: usize = 0;
        while i < 7
            invariant
                i <= 7,
                forall|k: int| 0 <= k < 7 ==> all[k] == weekday_of(k),
                v@ + weekdays_from(self.spec_bits(), i as int) == self.spec_to_chrono_vec(),
            decreases 7 - i,
        {
            let day = all[i];
            proof {
                lemma_weekdays_from_step(self.spec_bits(), i as int);
                lemma_single_day_value(i as int, *self);
            }
            if self.contains(Weekdays::from(day)) {
                v.push(day);
                proof {
                    assert(v@ + weekdays_from(self.spec_bits(), i + 1) =~= v@.drop_last()
                        + weekdays_from(self.spec_bits(), i as int));
                }
            }
            i = i + 1;
        }
        proof {
            lemma_weekdays_from_step(self.spec_bits(), 7);
            assert(v@ + weekdays_from(self.spec_bits(), 7) =~= v@);
        }
        v
    }
}

} // verus!
