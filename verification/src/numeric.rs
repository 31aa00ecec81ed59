//! Strict decoding of integers that the telemetry schema transmits as
//! decimal text: an optional sign followed by decimal digits, nothing else.

use vstd::prelude::*;
use vstd::string::StrSliceExecFns;

verus! {

/// A decimal digit character.
pub open spec fn is_dec_digit(c: char) -> bool {
    48 <= c as u32 <= 57
}

/// The numeric value of one decimal digit character.
pub open spec fn digit_value(c: char) -> nat
    recommends
        is_dec_digit(c),
{
    (c as u32 - 48) as nat
}

pub open spec fn all_dec_digits(s: Seq<char>) -> bool {
    forall|i: int| 0 <= i < s.len() ==> is_dec_digit(#[trigger] s[i])
}

/// The value of a digit string read in base ten, most significant digit
/// first.
pub open spec fn dec_value(s: Seq<char>) -> nat
    decreases s.len(),
{
    if s.len() == 0 {
        0
    } else {
        dec_value(s.drop_last()) * 10 + digit_value(s.last())
    }
}

/// Appending characters to a digit string never decreases its value.
proof fn lemma_dec_value_prefix(s: Seq<char>, i: int)
    requires
        0 <= i <= s.len(),
    ensures
        dec_value(s) >= dec_value(s.subrange(0, i)),
    decreases s.len() - i,
{
    if i == s.len() {
        assert(s.subrange(0, i) =~= s);
    } else {
        assert(s.subrange(0, i + 1).drop_last() =~= s.subrange(0, i));
        lemma_dec_value_prefix(s, i + 1);
    }
}

/// The digit portion of an unsigned decimal literal: everything after an
/// optional leading plus sign.
pub open spec fn unsigned_digits(s: Seq<char>) -> Seq<char> {
    if s.len() > 0 && s[0] == '+' {
        s.drop_first()
    } else {
        s
    }
}

/// What strict unsigned decoding accepts: at least one digit after an
/// optional plus sign, with a value that fits in 64 unsigned bits.
pub open spec fn spec_parse_u64(s: Seq<char>) -> Option<u64> {
    let ds = unsigned_digits(s);
    if ds.len() > 0 && all_dec_digits(ds) && dec_value(ds) <= u64::MAX {
        Some(dec_value(ds) as u64)
    } else {
        None
    }
}

/// The digit portion of a signed decimal literal: everything after an
/// optional leading minus or plus sign.
pub open spec fn signed_digits(s: Seq<char>) -> Seq<char> {
    if s.len() > 0 && (s[0] == '-' || s[0] == '+') {
        s.drop_first()
    } else {
        s
    }
}

pub open spec fn has_minus_sign(s: Seq<char>) -> bool {
    s.len() > 0 && s[0] == '-'
}

/// What strict signed decoding accepts: at least one digit after an optional
/// sign, with a value that fits in 64 signed bits.
pub open spec fn spec_parse_i64(s: Seq<char>) -> Option<i64> {
    let ds = signed_digits(s);
    if ds.len() > 0 && all_dec_digits(ds) {
        if has_minus_sign(s) {
            if dec_value(ds) <= 0x8000000000000000 {
                Some((0 - dec_value(ds)) as i64)
            } else {
                None
            }
        } else {
            if dec_value(ds) <= i64::MAX {
                Some(dec_value(ds) as i64)
            } else {
                None
            }
        }
    } else {
        None
    }
}

/// Reads the digit run `s[start..]`; the caller has already stripped the
/// sign, if any. Returns the value exactly when the run is non-empty, all
/// digits, and fits in a `u64`.
fn parse_digits(s: &str, start: usize) -> (r: Option<u64>)
    requires
        start <= s@.len(),
    ensures
        ({
            let ds = s@.subrange(start as int, s@.len() as int);
            match r {
                Some(v) => ds.len() > 0 && all_dec_digits(ds) && v == dec_value(ds),
                None => ds.len() == 0 || !all_dec_digits(ds) || dec_value(ds) > u64::MAX,
            }
        }),
{
    let n = s.unicode_len();
    if start == n {
        return None;
    }
    let mut i: usize = start;
    let mut acc: u64 = 0;
    while i < n
        invariant
            start <= i <= n,
            start < n,
            n == s@.len(),
            all_dec_digits(s@.subrange(start as int, i as int)),
            acc == dec_value(s@.subrange(start as int, i as int)),
        decreases n - i,
    {
        let c = s.get_char(i);
        let u = c as u32;
        if u < 48 || u > 57 {
            proof {
                let ds = s@.subrange(start as int, s@.len() as int);
                assert(ds[i - start] == s@[i as int]);
                assert(!is_dec_digit(ds[i - start]));
            }
            return None;
        }
        let d = (u - 48) as u64;
        let next = match acc.checked_mul(10) {
            Some(m) => m.checked_add(d),
            None => None,
        };
        match next {
            Some(v) => {
                proof {
                    assert(s@.subrange(start as int, i + 1).drop_last() =~= s@.subrange(
                        start as int,
                        i as int,
                    ));
                    assert(s@.subrange(start as int, i + 1).last() == s@[i as int]);
                }
                acc = v;
            },
            None => {
                proof {
                    let ds = s@.subrange(start as int, s@.len() as int);
                    assert(s@.subrange(start as int, i + 1).drop_last() =~= s@.subrange(
                        start as int,
                        i as int,
                    ));
                    assert(s@.subrange(start as int, i + 1).last() == s@[i as int]);
                    assert(dec_value(s@.subrange(start as int, i + 1)) > u64::MAX);
                    assert(ds.subrange(0, i + 1 - start) =~= s@.subrange(start as int, i + 1));
                    lemma_dec_value_prefix(ds, i + 1 - start);
                }
                return None;
            },
        }
        i = i + 1;
    }
    proof {
        assert(s@.subrange(start as int, i as int) =~= s@.subrange(start as int, s@.len() as int));
    }
    Some(acc)
}

/// Strict unsigned decimal decoding, as used for the process id field.
pub fn parse_u64(s: &str) -> (r: Option<u64>)
    ensures
        r == spec_parse_u64(s@),
{
    let n = s.unicode_len();
    let start: usize = if n > 0 && s.get_char(0) == '+' {
        1
    } else {
        0
    };
    proof {
        assert(s@.subrange(start as int, s@.len() as int) =~= unsigned_digits(s@));
    }
    parse_digits(s, start)
}

/// Strict signed decimal decoding, as used for the parent and start-time
/// fields, where -1 is a legitimate sentinel value.
pub fn parse_i64(s: &str) -> (r: Option<i64>)
    ensures
        r == spec_parse_i64(s@),
{
    let n = s.unicode_len();
    let mut negative = false;
    let mut start: usize = 0;
    if n > 0 {
        let c = s.get_char(0);
        if c == '-' {
            negative = true;
            start = 1;
        } else if c == '+' {
            start = 1;
        }
    }
    proof {
        assert(s@.subrange(start as int, s@.len() as int) =~= signed_digits(s@));
    }
    match parse_digits(s, start) {
        None => None,
        Some(acc) => {
            if negative {
                if acc == 0 {
                    Some(0)
                } else if acc <= 0x7fffffffffffffff {
                    Some(-(acc as i64))
                } else if acc == 0x8000000000000000 {
                    Some(i64::MIN)
                } else {
                    None
                }
            } else {
                if acc <= 0x7fffffffffffffff {
                    Some(acc as i64)
                } else {
                    None
                }
            }
        },
    }
}

} // verus!
