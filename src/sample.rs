use vstd::prelude::*;
use crate::key::{is_nan_bits, key_of, nan_bits, order_key};

verus! {

/// What became of one line of input.
#[derive(Clone, Copy, Debug, PartialEq, Eq, Structural)]
pub enum LineVerdict {
    /// The line held a number, which joined the sample.
    Accepted,
    /// The line was empty or all whitespace; it is skipped without a warning.
    Blank,
    /// The line held no number; it is skipped with a warning.
    Unparsable,
    /// The line held a NaN, which has no place in the order; it is skipped
    /// with a warning.
    NotANumber,
}

/// The verdict on a line, given whether it is blank once trimmed and the bit
/// pattern of the number it parsed to, if any.
pub open spec fn verdict_of(blank: bool, parsed: Option<u64>) -> LineVerdict {
    match parsed {
        Some(bits) => if nan_bits(bits) {
            LineVerdict::NotANumber
        } else {
            LineVerdict::Accepted
        },
        None => if blank {
            LineVerdict::Blank
        } else {
            LineVerdict::Unparsable
        },
    }
}

/// Takes one line into the sample: a parsed number that is not a NaN is
/// appended as its order key; anything else leaves the sample as it was.
pub fn accept_line(sample: &mut Vec<u64>, blank: bool, parsed: Option<u64>) -> (r: LineVerdict)
    ensures
        r == verdict_of(blank, parsed),
        r == LineVerdict::Accepted ==> final(sample)@ == old(sample)@.push(key_of(parsed->0)),
        r != LineVerdict::Accepted ==> final(sample)@ == old(sample)@,
{
    match parsed {
        Some(bits) => {
            if is_nan_bits(bits) {
                LineVerdict::NotANumber
            } else {
                sample.push(order_key(bits));
                LineVerdict::Accepted
            }
        },
        None => {
            if blank {
                LineVerdict::Blank
            } else {
                LineVerdict::Unparsable
            }
        },
    }
}

} // verus!
