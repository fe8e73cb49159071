//! Walking a set day by day, Monday first.

use crate::bits::{lemma_mask_bounded, lemma_single_day, lemma_single_day_test};
use crate::days::{count_days, day_bit, has_day, lemma_single_day_set};
use crate::weekdays::Weekdays;
use vstd::prelude::*;

verus! {

/// The day numbers of `bits` from day `from` on, in rising order.
pub open spec fn day_numbers(bits: u8, from: int) -> Seq<int>
    decreases 7 - from,
{
    if from < 0 || from >= 7 {
        Seq::empty()
    } else if has_day(bits, from) {
        seq![from] + day_numbers(bits, from + 1)
    } else {
        day_numbers(bits, from + 1)
    }
}

/// The set that holds day `d` alone.
pub open spec fn single_day(d: int) -> Weekdays {
    Weekdays::spec_new(day_bit(d))
}

/// The set of one day: its byte is the bit of that day, it holds that day alone,
/// and a set contains it exactly when it holds that day.
pub proof fn lemma_single_day_value(d: int, a: Weekdays)
    requires
        0 <= d < 7,
    ensures
        single_day(d).spec_bits() == day_bit(d),
        single_day(d).wf(),
        single_day(d)@ == set![d],
        a.spec_contains(single_day(d)) == has_day(a.spec_bits(), d),
{
    lemma_single_day_set(d);
    lemma_mask_bounded(day_bit(d));
    Weekdays::lemma_representation(single_day(d), single_day(d), day_bit(d));
    lemma_single_day_test(a.spec_bits(), d as u8);
}

/// The days of `bits` from day `from` on, each as a set of its own, Monday first.
pub open spec fn days_from(bits: u8, from: int) -> Seq<Weekdays> {
    day_numbers(bits, from).map_values(|d: int| single_day(d))
}

/// How `days_from` goes from one day to the next.
pub proof fn lemma_days_from_step(bits: u8, from: int)
    ensures
        from < 0 || from >= 7 ==> days_from(bits, from) == Seq::<Weekdays>::empty(),
        has_day(bits, from) ==> days_from(bits, from) == seq![single_day(from)] + days_from(
            bits,
            from + 1,
        ),
        0 <= from < 7 && !has_day(bits, from) ==> days_from(bits, from) == days_from(
            bits,
            from + 1,
        ),
{
    if from < 0 || from >= 7 {
        assert(days_from(bits, from) =~= Seq::<Weekdays>::empty());
    } else if has_day(bits, from) {
        assert(days_from(bits, from) =~= seq![single_day(from)] + days_from(bits, from + 1));
    }
}

/// The day numbers from `from` on are exactly the days of `bits` that are left,
/// each once, in rising order.
pub proof fn lemma_day_numbers(bits: u8, from: int)
    requires
        0 <= from <= 7,
    ensures
        forall|i: int|
            0 <= i < day_numbers(bits, from).len() ==> from <= #[trigger] day_numbers(
                bits,
                from,
            )[i] < 7 && has_day(bits, day_numbers(bits, from)[i]),
        forall|i: int, j: int|
            0 <= i < j < day_numbers(bits, from).len() ==> #[trigger] day_numbers(bits, from)[i]
                < #[trigger] day_numbers(bits, from)[j],
        forall|d: int|
            from <= d && has_day(bits, d) ==> #[trigger] day_numbers(bits, from).contains(d),
        day_numbers(bits, from).len() == count_days(bits, 7) - count_days(bits, from),
    decreases 7 - from,
{
    if from < 7 {
        lemma_day_numbers(bits, from + 1);
        let rest = day_numbers(bits, from + 1);
        let all = day_numbers(bits, from);
        assert(count_days(bits, from + 1) == count_days(bits, from) + if has_day(bits, from) {
            1nat
        } else {
            0nat
        });
        if has_day(bits, from) {
            assert(all == seq![from] + rest);
            assert forall|i: int| 0 < i < all.len() implies #[trigger] all[i] == rest[i - 1] by {}
            assert(all[0] == from);
            assert forall|i: int| 0 <= i < all.len() implies from <= #[trigger] all[i] < 7
                && has_day(bits, all[i]) by {
                if i > 0 {
                    assert(all[i] == rest[i - 1]);
                }
            }
            assert forall|i: int, j: int| 0 <= i < j < all.len() implies #[trigger] all[i]
                < #[trigger] all[j] by {
                assert(all[j] == rest[j - 1]);
                if i > 0 {
                    assert(all[i] == rest[i - 1]);
                }
            }
            assert forall|d: int| from <= d && has_day(bits, d) implies #[trigger] all.contains(
                d,
            ) by {
                if d == from {
                    assert(all[0] == d);
                } else {
                    assert(rest.contains(d));
                    let i = choose|i: int| 0 <= i < rest.len() && rest[i] == d;
                    assert(all[i + 1] == d);
                }
            }
        }
    } else {
        assert(count_days(bits, 7) == count_days(bits, from));
    }
}

/// A cursor over the days of a set, Monday first.
///
/// Its view is the sequence of days that it has yet to give out.
#[derive(Debug, Eq, Hash, Ord, PartialEq, PartialOrd)]
pub struct WeekdaysIter {
    /// The bits of the set that is walked.
    remaining: u8,
    /// The next day to look at, counting from Monday = 0; seven when done.
    position: u8,
}

impl View for WeekdaysIter {
    type V = Seq<Weekdays>;

    closed spec fn view(&self) -> Seq<Weekdays> {
        days_from(self.remaining, self.position as int)
    }
}

impl Clone for WeekdaysIter {
    /// A second cursor at the same place, with the same days yet to give out.
    fn clone(&self) -> (r: Self)
        ensures
            r == *self,
    {
        proof {
            use_type_invariant(self);
        }
        WeekdaysIter { remaining: self.remaining, position: self.position }
    }
}

impl WeekdaysIter {
    /// The position never passes the end of the week.
    #[verifier::type_invariant]
    closed spec fn wf(self) -> bool {
        self.position <= 7
    }

    /// Gives out the next day of the set, or `None` when none is left.
    pub fn next(&mut self) -> (r: Option<Weekdays>)
        ensures
            old(self)@.len() == 0 ==> r is None && final(self)@.len() == 0,
            old(self)@.len() > 0 ==> r == Some(old(self)@[0]) && final(self)@ == old(
                self,
            )@.drop_first(),
    {
        let ghost start = self@;
        proof {
            use_type_invariant(&*self);
        }
        while self.position < 7
            invariant
                self.position <= 7,
                self@ == start,
                start == old(self)@,
            decreases 7 - self.position,
        {
            let current: u8 = 0b100_0000u8 >> self.position;
            proof {
                lemma_days_from_step(self.remaining, self.position as int);
                lemma_single_day(self.position, self.position);
            }
            self.position = self.position + 1;
            if self.remaining & current != 0 {
                let day = Weekdays::new(current);
                proof {
                    assert(start[0] == day);
                    assert(start.drop_first() =~= self@);
                }
                return Some(day);
            }
        }
        proof {
            lemma_days_from_step(self.remaining, self.position as int);
        }
        None
    }
}

impl Weekdays {
    /// The days of the set, each as a set of its own, Monday first.
    pub open spec fn spec_to_vec(&self) -> Seq<Weekdays> {
        days_from(self.spec_bits(), 0)
    }

    /// A fresh cursor over the days of the set, Monday first.
    pub fn iter(&self) -> (it: WeekdaysIter)
        ensures
            it@ == self.spec_to_vec(),
    {
        WeekdaysIter { remaining: self.bits(), position: 0 }
    }

    /// A fresh cursor over the days of the set, Monday first.
    pub fn into_iter(self) -> (it: WeekdaysIter)
        ensures
            it@ == self.spec_to_vec(),
    {
        WeekdaysIter { remaining: self.bits(), position: 0 }
    }

    /// The days of the set, each as a set of its own, Monday first.
    pub fn to_vec(&self) -> (v: Vec<Weekdays>)
        ensures
            v@ == self.spec_to_vec(),
    {
        let mut it = self.iter();
        let mut v: Vec<Weekdays> = Vec::new();
        loop
            invariant
                v@ + it@ == self.spec_to_vec(),
            ensures
                it@.len() == 0,
            decreases it@.len(),
        {
            let ghost before = it@;
            match it.next() {
                Some(day) => {
                    v.push(day);
                    proof {
                        assert(v@ + it@ =~= v@.drop_last() + before);
                    }
                },
                None => {
                    break ;
                },
            }
        }
        proof {
            assert(v@ + it@ =~= v@);
        }
        v
    }
}

} // verus!
