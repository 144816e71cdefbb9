//! Validation of the pipeline's configuration: the producer and consumer
//! worker counts given on the command line must be decimal numerals within
//! a fixed sane range before any worker is spawned.

use vstd::prelude::*;
use vstd::string::StrSliceExecFns;
use vstd::string::StringExecFns;
use crate::decimal::all_dec_digits;
use crate::decimal::dec_str;
use crate::decimal::dec_val;
use crate::decimal::digit_val;
use crate::decimal::is_dec_digit;
use crate::decimal::u64_to_string;

verus! {

/// The digit part of a numeral: the input without its optional leading
/// plus sign.
pub open spec fn numeral_digits(s: Seq<char>) -> Seq<char> {
    if s.len() > 0 && s[0] == '+' {
        s.drop_first()
    } else {
        s
    }
}

/// Whether the input is a decimal numeral as an unsigned number is parsed
/// from a string: an optional leading plus sign followed by one or more
/// decimal digits.
pub open spec fn is_numeral(s: Seq<char>) -> bool {
    numeral_digits(s).len() > 0 && all_dec_digits(numeral_digits(s))
}

/// The value a numeral denotes.
pub open spec fn numeral_val(s: Seq<char>) -> nat {
    dec_val(numeral_digits(s))
}

/// The message [`in_range`] reports for an input it rejects.
pub open spec fn not_in_range_msg(start: nat, end: nat) -> Seq<char> {
    "Not in range ["@ + dec_str(start) + ", "@ + dec_str(end) + "]"@
}

/// Builds the rejection message for [`in_range`].
fn range_msg(start: usize, end: usize) -> (s: String)
    ensures
        s@ == not_in_range_msg(start as nat, end as nat),
{
    <String as StringExecFns>::from_str("Not in range [")
        .concat(u64_to_string(start as u64).as_str())
        .concat(", ")
        .concat(u64_to_string(end as u64).as_str())
        .concat("]")
}

/// Validates one worker-count argument: accepts the input exactly when it
/// is a decimal numeral — an optional leading plus sign and then digits —
/// denoting a value in `[start, end]`, and otherwise reports that the
/// value is not in range.
pub fn in_range(start: usize, end: usize, input: &str) -> (r: Result<(), String>)
    ensures
        r is Ok <==> (is_numeral(input@)
            && start as nat <= numeral_val(input@) <= end as nat),
        r matches Err(m) ==> m@ == not_in_range_msg(start as nat, end as nat),
{
    let len = input.unicode_len();
    let mut i: usize = 0;
    if len > 0 && input.get_char(0) == '+' {
        i = 1;
    }
    let first_digit = i;
    let ghost off = i as int;
    let ghost digits = numeral_digits(input@);
    proof {
        assert(digits =~= input@.subrange(off, len as int));
        assert(input@.subrange(off, off) =~= Seq::<char>::empty());
    }
    let mut val: u128 = 0;
    let mut too_big = false;
    while i < len
        invariant
            first_digit <= i <= len,
            off == first_digit as int,
            len == input@.len(),
            digits == numeral_digits(input@),
            digits == input@.subrange(off, len as int),
            all_dec_digits(input@.subrange(off, i as int)),
            !too_big ==> val == dec_val(input@.subrange(off, i as int)) && val <= end as u128,
            too_big ==> dec_val(input@.subrange(off, i as int)) > end as nat,
        decreases len - i,
    {
        let c = input.get_char(i);
        let code = c as u32;
        if code < 48 || code > 57 {
            proof {
                assert(digits[i - off] == input@[i as int]);
                assert(!is_dec_digit(digits[i - off]));
            }
            return Err(range_msg(start, end));
        }
        let d: u128 = (code - 48) as u128;
        proof {
            assert(input@.subrange(off, i + 1).drop_last() =~= input@.subrange(off, i as int));
            assert(input@.subrange(off, i + 1).last() == input@[i as int]);
        }
        if too_big {
            proof {
                assert(dec_val(input@.subrange(off, i + 1))
                    == dec_val(input@.subrange(off, i as int)) * 10 + digit_val(input@[i as int]));
                assert(dec_val(input@.subrange(off, i as int)) * 10
                    >= dec_val(input@.subrange(off, i as int)));
            }
        } else {
            let next = val * 10 + d;
            if next > end as u128 {
                too_big = true;
            } else {
                val = next;
            }
        }
        i = i + 1;
    }
    proof {
        assert(input@.subrange(off, len as int) == digits);
    }
    if len == first_digit || too_big || val < start as u128 {
        Err(range_msg(start, end))
    } else {
        Ok(())
    }
}

} // verus!
