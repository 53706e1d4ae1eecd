use vstd::prelude::*;

verus! {

/// The running-days bit of weekday `day` (0 = Sunday, ..., 6 = Saturday).
pub open spec fn day_bit(day: int) -> u8 {
    if day == 0 {
        1u8
    } else if day == 1 {
        2u8
    } else if day == 2 {
        4u8
    } else if day == 3 {
        8u8
    } else if day == 4 {
        16u8
    } else if day == 5 {
        32u8
    } else {
        64u8
    }
}

/// The two-letter label of weekday `day` (0 = Sunday, ..., 6 = Saturday).
pub open spec fn day_label(day: int) -> Seq<char> {
    if day == 0 {
        seq!['S', 'u']
    } else if day == 1 {
        seq!['M', 'o']
    } else if day == 2 {
        seq!['T', 'u']
    } else if day == 3 {
        seq!['W', 'e']
    } else if day == 4 {
        seq!['T', 'h']
    } else if day == 5 {
        seq!['F', 'r']
    } else {
        seq!['S', 'a']
    }
}

/// Whether the mask `bits` holds weekday `day`.
pub open spec fn has_day(bits: u8, day: int) -> bool {
    bits & day_bit(day) == day_bit(day)
}

/// The labels of the days among the first `n` weekdays that `bits` holds,
/// Sunday first, separated by single spaces.
pub open spec fn day_names_upto(bits: u8, n: nat) -> Seq<char>
    decreases n,
{
    if n == 0 {
        Seq::empty()
    } else {
        let prev = day_names_upto(bits, (n - 1) as nat);
        if !has_day(bits, n - 1) {
            prev
        } else if prev.len() == 0 {
            day_label(n - 1)
        } else {
            prev + seq![' '] + day_label(n - 1)
        }
    }
}

/// The display form of a running-days mask: the labels of its days from
/// Sunday to Saturday, separated by single spaces; empty for no day.
pub open spec fn day_names(bits: u8) -> Seq<char> {
    day_names_upto(bits, 7)
}

/// A set of weekdays on which a train runs, one bit per day, Sunday in bit 0.
#[derive(Clone, Copy, Debug, PartialEq, Eq)]
pub struct RunningDays {
    bits: u8,
}

impl RunningDays {
    pub closed spec fn view(&self) -> u8 {
        self.bits
    }

    /// Accepts `bits` only when no bit above Saturday is set.
    pub fn from_bits(bits: u8) -> (r: Option<RunningDays>)
        ensures
            r is Some <==> bits < 128,
            r matches Some(d) ==> d@ == bits,
    {
        assert(bits & 0x80u8 == 0 <==> bits < 128) by (bit_vector);
        if bits & 0x80u8 == 0 {
            Some(RunningDays { bits })
        } else {
            None
        }
    }

    /// The mask as a number.
    pub fn bits(&self) -> (r: u8)
        ensures
            r == self@,
    {
        self.bits
    }

    /// Whether every day of `other` is a day of `self`.
    pub fn contains(&self, other: RunningDays) -> (r: bool)
        ensures
            r == (self@ & other@ == other@),
    {
        self.bits & other.bits == other.bits
    }

    /// The set that holds weekday `day` alone.
    pub fn day(day: u8) -> (r: RunningDays)
        requires
            day < 7,
        ensures
            r@ == day_bit(day as int),
    {
        let bits: u8 = if day == 0 {
            1
        } else if day == 1 {
            2
        } else if day == 2 {
            4
        } else if day == 3 {
            8
        } else if day == 4 {
            16
        } else if day == 5 {
            32
        } else {
            64
        };
        RunningDays { bits }
    }

    /// The days of the set as two-letter labels, Sunday first, separated by
    /// single spaces; the empty string for the empty set.
    pub fn as_names(&self) -> (r: String)
        ensures
            r@ == day_names(self@),
    {
        let mut result = String::new();
        let mut any = false;
        let mut day: u8 = 0;
        while day < 7
            invariant
                day <= 7,
                result@ == day_names_upto(self@, day as nat),
                any == (result@.len() > 0),
            decreases 7 - day,
        {
            proof {
                reveal_strlit(" ");
            }
            if self.contains(RunningDays::day(day)) {
                if any {
                    result.append(" ");
                }
                result.append(day_label_str(day));
                any = true;
            }
            day = day + 1;
        }
        result
    }
}

/// The two-letter label of weekday `day`.
fn day_label_str(day: u8) -> (r: &'static str)
    requires
        day < 7,
    ensures
        r@ == day_label(day as int),
{
    proof {
        reveal_strlit("Su");
        reveal_strlit("Mo");
        reveal_strlit("Tu");
        reveal_strlit("We");
        reveal_strlit("Th");
        reveal_strlit("Fr");
        reveal_strlit("Sa");
    }
    if day == 0 {
        "Su"
    } else if day == 1 {
        "Mo"
    } else if day == 2 {
        "Tu"
    } else if day == 3 {
        "We"
    } else if day == 4 {
        "Th"
    } else if day == 5 {
        "Fr"
    } else {
        "Sa"
    }
}

} // verus!
