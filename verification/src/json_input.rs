//! The inputs on which `json::parse` (json 0.12) may not run. Its number
//! parser lowers an `i16` exponent by one for each digit after a decimal
//! point while the mantissa still takes digits, so a number with more than
//! 32768 such digits can overflow it and panic (one of zeros always does).
//! The library hands `json::parse` only text in which no `.` is followed by
//! that many digits; text that holds such a run anywhere, a string
//! included, is left out whether or not it would overflow.

use vstd::prelude::*;
use vstd::string::StringSliceAdditionalSpecFns;

verus! {

/// The number of fractional digits `json::parse` can take without its
/// exponent overflowing, plus one.
pub open spec fn fraction_limit() -> int {
    32769
}

/// Whether a byte is an ASCII digit (`0` is 48, `9` is 57; `.` is 46).
pub open spec fn is_digit(b: u8) -> bool {
    48u8 <= b <= 57u8
}

/// Whether the byte at `j` is a `.` followed by more fractional digits than
/// `json::parse` can count.
pub open spec fn long_fraction_at(b: Seq<u8>, j: int) -> bool {
    &&& 0 <= j
    &&& j + fraction_limit() < b.len()
    &&& b[j] == 46u8
    &&& forall|k: int| 1 <= k <= fraction_limit() ==> #[trigger] is_digit(b[j + k])
}

/// Whether some `.` in `b` is followed by more fractional digits than
/// `json::parse` can count.
pub open spec fn has_long_fraction(b: Seq<u8>) -> bool {
    exists|j: int| long_fraction_at(b, j)
}

/// Whether `b[d]` is a `.` followed only by digits up to `i`.
pub open spec fn open_dot(b: Seq<u8>, d: int, i: int) -> bool {
    &&& 0 <= d < i
    &&& b[d] == 46u8
    &&& forall|k: int| d < k < i ==> #[trigger] is_digit(b[k])
}

proof fn lemma_open_dot_unique(b: Seq<u8>, d: int, e: int, i: int)
    requires
        open_dot(b, d, i),
        open_dot(b, e, i),
    ensures
        d == e,
{
    if d < e {
        assert(is_digit(b[e]));
    } else if e < d {
        assert(is_digit(b[d]));
    }
}

/// Whether `json::parse` may overflow on `s`: some `.` in it is followed
/// by more than 32768 digits.
pub fn json_fraction_overflows(s: &str) -> (r: bool)
    ensures
        r == has_long_fraction(s.spec_bytes()),
{
    let b = s.as_bytes();
    let n = b.len();
    let mut dot: Option<usize> = None;
    let mut i: usize = 0;
    while i < n
        invariant
            n == b@.len(),
            b@ == s.spec_bytes(),
            i <= n,
            match dot {
                Some(d) => open_dot(b@, d as int, i as int) && i - d <= fraction_limit(),
                None => forall|d: int| !open_dot(b@, d, i as int),
            },
            forall|j: int| 0 <= j && j + fraction_limit() < i ==> !long_fraction_at(b@, j),
        decreases n - i,
    {
        let c = b[i];
        let ghost old_dot = dot;
        if c == 46u8 {
            dot = Some(i);
        } else if 48u8 <= c && c <= 57u8 {
            if let Some(d) = dot {
                if i - d == 32769 {
                    assert(long_fraction_at(b@, d as int)) by {
                        assert forall|k: int| 1 <= k <= fraction_limit() implies #[trigger] is_digit(
                            b@[d + k],
                        ) by {
                            if d + k < i {
                                assert(d < d + k < i);
                            }
                        }
                    }
                    return true;
                }
            }
        } else {
            dot = None;
        }
        proof {
            let j = i - fraction_limit();
            if j >= 0 && long_fraction_at(b@, j) {
                assert(is_digit(b@[j + fraction_limit()]));
                assert(open_dot(b@, j, i as int)) by {
                    assert forall|k: int| j < k < i implies #[trigger] is_digit(b@[k]) by {
                        assert(is_digit(b@[j + (k - j)]));
                    }
                }
                match old_dot {
                    Some(d) => {
                        lemma_open_dot_unique(b@, d as int, j, i as int);
                    },
                    None => {},
                }
            }
            assert forall|d: int| dot is None implies !#[trigger] open_dot(b@, d, i + 1) by {
                if open_dot(b@, d, i + 1) && d < i {
                    assert(is_digit(b@[i as int]));
                    assert(open_dot(b@, d, i as int));
                    match old_dot {
                        Some(e) => {
                            lemma_open_dot_unique(b@, d, e as int, i as int);
                        },
                        None => {},
                    }
                }
            }
        }
        i = i + 1;
    }
    false
}

} // verus!
