//! Score bookkeeping: the saturating per-tick increment and the digit
//! decomposition that the score display reads.

use vstd::prelude::*;

use crate::params::SCORE_DISPLAY_CAP;

verus! {

/// The score after earning `points`: the sum, saturated at the top of the
/// counter's range.
pub open spec fn score_plus(score: int, points: int) -> int {
    if score + points > u32::MAX {
        u32::MAX as int
    } else {
        score + points
    }
}

/// Adds the points earned in a tick to the score, saturating instead of
/// overflowing.
pub fn add_points(score: u32, points: u32) -> (r: u32)
    ensures
        r == score_plus(score as int, points as int),
{
    if score <= u32::MAX - points {
        score + points
    } else {
        u32::MAX
    }
}

/// The decimal digits of a non-negative value, least significant first;
/// empty for zero.
pub open spec fn decimal_digits(n: int) -> Seq<u8>
    decreases n,
{
    if n <= 0 {
        Seq::empty()
    } else {
        seq![(n % 10) as u8] + decimal_digits(n / 10)
    }
}

/// What the score display shows: the digits of the score capped at 99999,
/// least significant first; a zero score shows as five zero glyphs.
pub open spec fn display_digits(score: int) -> Seq<u8> {
    let capped = if score > SCORE_DISPLAY_CAP {
        SCORE_DISPLAY_CAP as int
    } else {
        score
    };
    if capped == 0 {
        seq![0u8, 0u8, 0u8, 0u8, 0u8]
    } else {
        decimal_digits(capped)
    }
}

/// Decomposes the score, capped at 99999, into its decimal digits for the
/// display, least significant first; a zero score yields five zeros.
pub fn score_digits(score: u32) -> (digits: Vec<u8>)
    ensures
        digits@ == display_digits(score as int),
{
    let capped = if score > SCORE_DISPLAY_CAP {
        SCORE_DISPLAY_CAP
    } else {
        score
    };
    let mut digits: Vec<u8> = Vec::new();
    if capped == 0 {
        digits.push(0);
        digits.push(0);
        digits.push(0);
        digits.push(0);
        digits.push(0);
        proof {
            assert(digits@ =~= seq![0u8, 0u8, 0u8, 0u8, 0u8]);
        }
    } else {
        proof {
            assert(digits@ + decimal_digits(capped as int) =~= decimal_digits(capped as int));
        }
        let mut n = capped;
        while n > 0
            invariant
                digits@ + decimal_digits(n as int) == decimal_digits(capped as int),
            decreases n,
        {
            let ghost dpre: Seq<u8> = digits@;
            let d = (n % 10) as u8;
            digits.push(d);
            proof {
                assert(decimal_digits(n as int) == seq![d] + decimal_digits(n as int / 10));
                assert(digits@ + decimal_digits(n as int / 10) =~= dpre + decimal_digits(
                    n as int));
            }
            n = n / 10;
        }
        proof {
            assert(decimal_digits(0int) =~= Seq::<u8>::empty());
            assert(digits@ =~= digits@ + decimal_digits(0int));
        }
    }
    digits
}

} // verus!
