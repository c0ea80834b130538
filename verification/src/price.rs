//! Parsing decimal dollar strings into fixed-point micro-dollar prices.

use vstd::prelude::*;
use vstd::slice::slice_index_get;
use vstd::string::StringSliceAdditionalSpecFns;

verus! {

/// An ASCII decimal digit.
pub open spec fn is_digit(b: u8) -> bool {
    48 <= b <= 57
}

/// Every byte a decimal digit.
pub open spec fn all_digits(s: Seq<u8>) -> bool {
    forall|i: int| 0 <= i < s.len() ==> is_digit(#[trigger] s[i])
}

/// The number the digit string denotes.
pub open spec fn digits_value(s: Seq<u8>) -> int
    decreases s.len(),
{
    if s.len() == 0 {
        0
    } else {
        digits_value(s.drop_last()) * 10 + (s.last() - 48)
    }
}

/// Digit strings denote non-negative numbers.
pub proof fn lemma_digits_value_nonneg(s: Seq<u8>)
    requires
        all_digits(s),
    ensures
        digits_value(s) >= 0,
    decreases s.len(),
{
    if s.len() > 0 {
        assert(all_digits(s.drop_last()));
        lemma_digits_value_nonneg(s.drop_last());
        assert(digits_value(s.drop_last()) * 10 >= 0) by (nonlinear_arith)
            requires
                digits_value(s.drop_last()) >= 0,
        ;
    }
}

/// Extending a digit string never shrinks its value.
pub proof fn lemma_digits_value_monotone(s: Seq<u8>, k: int)
    requires
        all_digits(s),
        0 <= k <= s.len(),
    ensures
        digits_value(s) >= digits_value(s.take(k)),
    decreases s.len() - k,
{
    if k < s.len() {
        lemma_digits_value_monotone(s, k + 1);
        let t = s.take(k + 1);
        assert(t.drop_last() =~= s.take(k));
        assert(all_digits(s.take(k)));
        lemma_digits_value_nonneg(s.take(k));
        assert(digits_value(t) == digits_value(s.take(k)) * 10 + (t.last() - 48));
        assert(digits_value(s.take(k)) * 10 >= digits_value(s.take(k))) by (nonlinear_arith)
            requires
                digits_value(s.take(k)) >= 0,
        ;
    } else {
        assert(s.take(k) =~= s);
    }
}

/// The index of the first `.` byte, or the length when none occurs.
pub open spec fn dot_index(s: Seq<u8>) -> int
    decreases s.len(),
{
    if s.len() == 0 {
        0
    } else if s[0] == 46 {
        0
    } else {
        1 + dot_index(s.drop_first())
    }
}

/// The first dot index is in range, everything before it is not a dot, and
/// it points at a dot when inside the string.
pub proof fn lemma_dot_index(s: Seq<u8>)
    ensures
        0 <= dot_index(s) <= s.len(),
        forall|i: int| 0 <= i < dot_index(s) ==> s[i] != 46,
        dot_index(s) < s.len() ==> s[dot_index(s)] == 46,
    decreases s.len(),
{
    if s.len() > 0 && s[0] != 46 {
        lemma_dot_index(s.drop_first());
        assert forall|i: int| 0 <= i < dot_index(s) implies s[i] != 46 by {
            if i > 0 {
                assert(s.drop_first()[i - 1] != 46);
            }
        }
    }
}

/// Scale factors for up to six fractional digits.
pub open spec fn frac_scale(frac_len: int) -> int {
    if frac_len == 0 {
        1000000
    } else if frac_len == 1 {
        100000
    } else if frac_len == 2 {
        10000
    } else if frac_len == 3 {
        1000
    } else if frac_len == 4 {
        100
    } else if frac_len == 5 {
        10
    } else {
        1
    }
}

/// The micro-dollar value a decimal dollar string denotes: an optional
/// integer part, an optional dot, and at most six fractional digits, with at
/// least one digit overall. Integer parts of a million dollars or more are
/// out of range.
pub open spec fn spec_price_micros(s: Seq<u8>) -> Option<u64> {
    let di = dot_index(s);
    if di == s.len() {
        if s.len() >= 1 && all_digits(s) && digits_value(s) <= 999999 {
            Some((digits_value(s) * 1000000) as u64)
        } else {
            None
        }
    } else {
        let int_part = s.take(di);
        let frac = s.skip(di + 1);
        if all_digits(int_part) && all_digits(frac) && frac.len() <= 6 && (int_part.len() >= 1
            || frac.len() >= 1) && digits_value(int_part) <= 999999 {
            Some(
                (digits_value(int_part) * 1000000 + digits_value(frac) * frac_scale(
                    frac.len() as int,
                )) as u64,
            )
        } else {
            None
        }
    }
}

/// Powers of ten up to one million.
pub open spec fn pow10(k: int) -> int {
    if k <= 0 {
        1
    } else if k == 1 {
        10
    } else if k == 2 {
        100
    } else if k == 3 {
        1000
    } else if k == 4 {
        10000
    } else if k == 5 {
        100000
    } else {
        1000000
    }
}

/// A digit string of at most six digits stays under the matching power of
/// ten.
proof fn lemma_digits_value_upper(s: Seq<u8>)
    requires
        all_digits(s),
        s.len() <= 6,
    ensures
        0 <= digits_value(s) < pow10(s.len() as int),
    decreases s.len(),
{
    lemma_digits_value_nonneg(s);
    if s.len() > 0 {
        let head = s.drop_last();
        assert(all_digits(head));
        lemma_digits_value_upper(head);
        let hv = digits_value(head);
        let d = s.last() - 48;
        assert(digits_value(s) == hv * 10 + d);
        assert(pow10(s.len() as int) == 10 * pow10(head.len() as int));
        assert(hv * 10 + d < 10 * pow10(head.len() as int)) by (nonlinear_arith)
            requires
                0 <= hv < pow10(head.len() as int),
                0 <= d <= 9,
        ;
    }
}

/// Fractional digit strings of at most six digits stay under their scale.
proof fn lemma_frac_bound(s: Seq<u8>)
    requires
        all_digits(s),
        s.len() <= 6,
    ensures
        digits_value(s) * frac_scale(s.len() as int) < 1000000,
        digits_value(s) >= 0,
    decreases s.len(),
{
    lemma_digits_value_upper(s);
    let dv = digits_value(s);
    let fs = frac_scale(s.len() as int);
    assert(pow10(s.len() as int) * fs == 1000000);
    assert(dv * fs < pow10(s.len() as int) * fs) by (nonlinear_arith)
        requires
            0 <= dv < pow10(s.len() as int),
            fs >= 1,
    ;
}

/// Parses a decimal dollar string into micro-dollars.
#[verifier::loop_isolation(false)]
pub fn parse_price_micros(s: &str) -> (r: Option<u64>)
    ensures
        r == spec_price_micros(s.spec_bytes()),
{
    let bytes = s.as_bytes();
    let ghost bs = s.spec_bytes();
    let n: usize = bytes.len();
    proof {
        lemma_dot_index(bs);
    }

    // Find the dot, validating and accumulating the integer part.
    let mut int_val: u64 = 0;
    let mut i: usize = 0;
    let mut saw_dot: bool = false;
    while i < n && !saw_dot
        invariant
            bs == bytes@,
            n == bs.len(),
            0 <= i <= n,
            !saw_dot ==> i <= dot_index(bs) && all_digits(bs.take(i as int)) && int_val
                == digits_value(bs.take(i as int)) && int_val <= 999999,
            saw_dot ==> i == dot_index(bs) + 1 && dot_index(bs) < n && all_digits(
                bs.take(dot_index(bs)),
            ) && int_val == digits_value(bs.take(dot_index(bs))) && int_val <= 999999,
        decreases n - i,
    {
        let b = *slice_index_get(bytes, i);
        if b == 46 {
            proof {
                assert(dot_index(bs) == i) by {
                    if dot_index(bs) < i {
                        assert(bs[dot_index(bs)] == 46);
                        assert(all_digits(bs.take(i as int)));
                        assert(bs.take(i as int)[dot_index(bs)] == bs[dot_index(bs)]);
                    }
                }
            }
            saw_dot = true;
            i += 1;
        } else if b >= 48 && b <= 57 {
            let next = int_val * 10 + ((b - 48) as u64);
            proof {
                assert(bs.take(i + 1).drop_last() =~= bs.take(i as int));
                assert(bs.take(i + 1).last() == bs[i as int]);
            }
            if next > 999999 {
                proof {
                    assert(all_digits(bs.take(i + 1)));
                    assert(digits_value(bs.take(i + 1)) == next);
                    let di = dot_index(bs);
                    if di == bs.len() {
                        if all_digits(bs) {
                            lemma_digits_value_monotone(bs, i + 1);
                        }
                    } else {
                        assert(i != di);
                        assert(i + 1 <= di);
                        if all_digits(bs.take(di)) {
                            assert(bs.take(di).take(i + 1) =~= bs.take(i + 1));
                            lemma_digits_value_monotone(bs.take(di), i + 1);
                        }
                    }
                }
                return None;
            }
            int_val = next;
            i += 1;
            proof {
                assert(all_digits(bs.take(i as int)));
            }
        } else {
            proof {
                let di = dot_index(bs);
                if di == bs.len() {
                    assert(!all_digits(bs)) by {
                        assert(bs[i as int] == b);
                    }
                } else {
                    assert(i < di);
                    assert(!all_digits(bs.take(di))) by {
                        assert(bs.take(di)[i as int] == b);
                    }
                }
            }
            return None;
        }
    }

    if !saw_dot {
        // No dot: the whole string is the integer part.
        proof {
            assert(i == n);
            assert(bs.take(i as int) =~= bs);
            assert(dot_index(bs) == n);
        }
        if n == 0 {
            return None;
        }
        return Some(int_val * 1000000);
    }

    // Fractional part after the dot.
    let ghost di = dot_index(bs);
    let frac_len: usize = n - i;
    if frac_len > 6 {
        proof {
            assert(bs.skip(di + 1).len() > 6);
        }
        return None;
    }
    if i == 1 && frac_len == 0 {
        // A lone dot has no digits at all.
        proof {
            assert(bs.take(di).len() == 0 && bs.skip(di + 1).len() == 0);
        }
        return None;
    }
    let mut frac_val: u64 = 0;
    while i < n
        invariant
            bs == bytes@,
            n == bs.len(),
            di == dot_index(bs),
            di + 1 <= i <= n,
            n - di - 1 <= 6,
            all_digits(bs.skip(di + 1).take(i - di - 1)),
            frac_val == digits_value(bs.skip(di + 1).take(i - di - 1)),
            frac_val <= 999999,
        decreases n - i,
    {
        let b = *slice_index_get(bytes, i);
        if b < 48 || b > 57 {
            proof {
                assert(bs[i as int] == b);
                assert(!all_digits(bs.skip(di + 1))) by {
                    assert(bs.skip(di + 1)[i - di - 1] == bs[di + 1 + (i - di - 1)]);
                }
            }
            return None;
        }
        proof {
            let f = bs.skip(di + 1);
            assert(f.take(i - di).drop_last() =~= f.take(i - di - 1));
            assert(f.take(i - di).last() == f[i - di - 1]);
            assert(f[i - di - 1] == bs[di + 1 + (i - di - 1)]);
            assert(f[i - di - 1] == bs[i as int]);
            lemma_frac_bound(f.take(i - di));
        }
        frac_val = frac_val * 10 + ((b - 48) as u64);
        i += 1;
    }
    proof {
        let f = bs.skip(di + 1);
        assert(f.take(f.len() as int) =~= f);
        lemma_frac_bound(f);
        lemma_digits_value_nonneg(bs.take(di));
    }
    let scale: u64 = if frac_len == 0 {
        1000000
    } else if frac_len == 1 {
        100000
    } else if frac_len == 2 {
        10000
    } else if frac_len == 3 {
        1000
    } else if frac_len == 4 {
        100
    } else if frac_len == 5 {
        10
    } else {
        1
    };
    proof {
        let f = bs.skip(di + 1);
        assert(digits_value(f) * frac_scale(f.len() as int) < 1000000);
        assert(digits_value(bs.take(di)) * 1000000 <= 999999000000) by (nonlinear_arith)
            requires
                0 <= digits_value(bs.take(di)) <= 999999,
        ;
    }
    Some(int_val * 1000000 + frac_val * scale)
}

} // verus!
