//! The one recognized configuration option: the maximum accepted payload
//! size in bytes. The raw value arrives as an optional string (the process
//! environment is read outside the library); a value that is missing or does
//! not parse as a machine-sized number falls back to the 60 MiB default.

use vstd::prelude::*;
use vstd::string::StrSliceExecFns;

verus! {

/// Default payload size ceiling in bytes: 60 MiB.
pub const DEFAULT_SIZE_LIMIT_BYTES: usize = 62914560;

/// Whether `c` is a decimal digit.
pub open spec fn is_dec_digit(c: char) -> bool {
    48 <= c as int && c as int <= 57
}

/// The numeric value of a decimal digit character.
pub open spec fn digit_val(c: char) -> nat {
    (c as int - 48) as nat
}

/// The value of a digit string read left to right.
pub open spec fn digits_val(s: Seq<char>) -> nat
    decreases s.len(),
{
    if s.len() == 0 {
        0
    } else {
        digits_val(s.drop_last()) * 10 + digit_val(s.last())
    }
}

/// The digit part of an unsigned numeric literal: everything after an
/// optional leading '+', which the standard unsigned parser accepts.
pub open spec fn literal_digits(s: Seq<char>) -> Seq<char> {
    if s.len() > 0 && s[0] == '+' {
        s.subrange(1, s.len() as int)
    } else {
        s
    }
}

/// Whether `s` parses as a `usize`: an optional leading '+', then at least
/// one decimal digit and nothing else, with a value the machine can hold.
pub open spec fn is_usize_literal(s: Seq<char>) -> bool {
    &&& literal_digits(s).len() > 0
    &&& forall|i: int|
        0 <= i < literal_digits(s).len() ==> is_dec_digit(literal_digits(s)[i])
    &&& digits_val(literal_digits(s)) <= usize::MAX as nat
}

/// The size ceiling a raw configuration value yields: the parsed number
/// when the value is present and parses, the default otherwise.
pub open spec fn spec_size_limit(raw: Option<Seq<char>>) -> nat {
    match raw {
        Some(s) => if is_usize_literal(s) {
            digits_val(literal_digits(s))
        } else {
            DEFAULT_SIZE_LIMIT_BYTES as nat
        },
        None => DEFAULT_SIZE_LIMIT_BYTES as nat,
    }
}

proof fn lemma_digits_val_prefix(s: Seq<char>, i: int, j: int)
    requires
        0 <= i <= j <= s.len(),
    ensures
        digits_val(s.subrange(0, i)) <= digits_val(s.subrange(0, j)),
    decreases j - i,
{
    if i < j {
        lemma_digits_val_prefix(s, i, j - 1);
        assert(s.subrange(0, j).drop_last() =~= s.subrange(0, j - 1));
        let prev = digits_val(s.subrange(0, j - 1));
        assert(digits_val(s.subrange(0, j)) == prev * 10 + digit_val(s.subrange(0, j).last()));
        assert(prev * 10 >= prev);
    }
}

/// Parses a decimal `usize`, accepting exactly what the standard library's
/// unsigned parser accepts: an optional leading '+', then decimal digits.
pub fn parse_usize(s: &str) -> (r: Option<usize>)
    ensures
        match r {
            Some(v) => is_usize_literal(s@) && v as nat == digits_val(literal_digits(s@)),
            None => !is_usize_literal(s@),
        },
{
    let n = s.unicode_len();
    let start: usize = if n > 0 && s.get_char(0) == '+' {
        1
    } else {
        0
    };
    let ghost digits = literal_digits(s@);
    proof {
        assert(digits =~= s@.subrange(start as int, n as int));
    }
    if n == start {
        return None;
    }
    let mut acc: usize = 0;
    let mut i: usize = start;
    while i < n
        invariant
            start <= i <= n,
            n == s@.len(),
            digits == literal_digits(s@),
            digits == s@.subrange(start as int, n as int),
            forall|j: int| start <= j < i ==> is_dec_digit(s@[j]),
            acc as nat == digits_val(s@.subrange(start as int, i as int)),
        decreases n - i,
    {
        let c = s.get_char(i);
        let v = c as u32;
        if !(48 <= v && v <= 57) {
            proof {
                let idx: int = i as int - start as int;
                assert(digits[idx] == s@[i as int]);
                assert(literal_digits(s@) == digits);
                assert(0 <= idx < literal_digits(s@).len());
                assert(!is_dec_digit(literal_digits(s@)[idx]));
                assert(!is_usize_literal(s@));
            }
            return None;
        }
        let d = (v - 48) as usize;
        proof {
            assert(s@.subrange(start as int, i + 1).drop_last() =~= s@.subrange(
                start as int,
                i as int,
            ));
            assert(s@.subrange(start as int, i + 1).last() == s@[i as int]);
            assert(digit_val(s@[i as int]) == d as nat);
        }
        if acc > (usize::MAX - d) / 10 {
            proof {
                let pref = s@.subrange(start as int, i + 1);
                let m: int = usize::MAX - d;
                assert(m == 10 * (m / 10) + m % 10);
                assert(0 <= m % 10 < 10);
                assert((acc as int) * 10 + (d as int) > usize::MAX as int);
                assert(digits_val(pref) == (acc as nat) * 10 + (d as nat));
                assert(digits_val(pref) > usize::MAX as nat);
                assert(digits.subrange(0, (i + 1 - start) as int) =~= pref);
                assert(digits.subrange(0, digits.len() as int) =~= digits);
                lemma_digits_val_prefix(digits, (i + 1 - start) as int, digits.len() as int);
                assert(digits_val(digits) > usize::MAX as nat);
                assert(literal_digits(s@) == digits);
                assert(digits_val(literal_digits(s@)) > usize::MAX as nat);
                assert(!is_usize_literal(s@));
            }
            return None;
        }
        acc = acc * 10 + d;
        i += 1;
    }
    proof {
        assert(s@.subrange(start as int, n as int) =~= digits);
        assert forall|j: int| 0 <= j < digits.len() implies is_dec_digit(digits[j]) by {
            assert(digits[j] == s@[start + j]);
        };
    }
    Some(acc)
}

/// The configured size ceiling: the raw value parsed as a byte count, or
/// the 60 MiB default when the value is missing or does not parse.
pub fn parse_size_limit(raw: Option<&String>) -> (r: usize)
    ensures
        r as nat == spec_size_limit(crate::protocol::opt_view(raw)),
{
    match raw {
        Some(s) => match parse_usize(s.as_str()) {
            Some(v) => v,
            None => DEFAULT_SIZE_LIMIT_BYTES,
        },
        None => DEFAULT_SIZE_LIMIT_BYTES,
    }
}

} // verus!
