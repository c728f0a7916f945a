//! Decimal parsing of event keys: the grammar accepted by `i8::from_str`
//! (an optional sign followed by one or more ASCII digits, with the value
//! within the `i8` range), stated as a spec function and implemented here.

use vstd::prelude::*;

verus! {

/// An ASCII decimal digit.
pub open spec fn is_dec_digit(c: char) -> bool {
    48 <= c as int <= 57
}

/// The numeric value of one decimal digit.
pub open spec fn digit_val(c: char) -> int {
    c as int - 48
}

/// Every character of `s` is a decimal digit.
pub open spec fn all_digits(s: Seq<char>) -> bool {
    forall|i: int| 0 <= i < s.len() ==> is_dec_digit(#[trigger] s[i])
}

/// The value of a digit string read most-significant first.
pub open spec fn digits_value(s: Seq<char>) -> int
    decreases s.len(),
{
    if s.len() == 0 {
        0
    } else {
        digits_value(s.drop_last()) * 10 + digit_val(s.last())
    }
}

/// What parsing a whole string as an `i8` yields: `None` on an empty string,
/// a lone sign, a non-digit character, or a value outside the `i8` range.
pub open spec fn spec_parse_i8(s: Seq<char>) -> Option<int> {
    if s.len() == 0 {
        None
    } else {
        let neg = s[0] == '-';
        let body = if s[0] == '-' || s[0] == '+' {
            s.drop_first()
        } else {
            s
        };
        if body.len() == 0 || !all_digits(body) {
            None
        } else {
            let v = if neg {
                -digits_value(body)
            } else {
                digits_value(body)
            };
            if -128 <= v <= 127 {
                Some(v)
            } else {
                None
            }
        }
    }
}

proof fn lemma_digits_value_nonneg(s: Seq<char>)
    requires
        all_digits(s),
    ensures
        digits_value(s) >= 0,
    decreases s.len(),
{
    if s.len() > 0 {
        assert(all_digits(s.drop_last()));
        lemma_digits_value_nonneg(s.drop_last());
        assert(digit_val(s.last()) >= 0);
    }
}

/// Parse a string as an `i8`, exactly as `spec_parse_i8` states.
pub fn parse_i8(s: &str) -> (r: Option<i8>)
    ensures
        match r {
            Some(v) => spec_parse_i8(s@) == Some(v as int),
            None => spec_parse_i8(s@) is None,
        },
{
    let n = s.unicode_len();
    if n == 0 {
        return None;
    }
    let c0 = s.get_char(0);
    let neg = c0 == '-';
    let has_sign = neg || c0 == '+';
    let start: usize = if has_sign {
        1
    } else {
        0
    };
    if start >= n {
        // a lone sign has an empty digit body
        return None;
    }
    let ghost body = s@.skip(start as int);
    proof {
        if has_sign {
            assert(body =~= s@.drop_first());
        } else {
            assert(body =~= s@);
        }
    }
    let mut i: usize = start;
    let mut acc: u32 = 0;
    while i < n
        invariant
            start <= i <= n,
            n == s@.len(),
            start < n,
            start <= 1,
            neg == (s@[0] == '-'),
            has_sign == (s@[0] == '-' || s@[0] == '+'),
            start == if has_sign {
                1int
            } else {
                0int
            },
            body == s@.skip(start as int),
            all_digits(s@.subrange(start as int, i as int)),
            digits_value(s@.subrange(start as int, i as int)) <= 129 ==> acc == digits_value(
                s@.subrange(start as int, i as int),
            ),
            digits_value(s@.subrange(start as int, i as int)) > 129 ==> acc >= 130,
            acc <= 1299,
        decreases n - i,
    {
        let c = s.get_char(i);
        let cv = c as u32;
        if cv < 48 || cv > 57 {
            proof {
                assert(body[i - start as int] == s@[i as int]);
                assert(!is_dec_digit(body[i - start as int]));
                assert(!all_digits(body));
                if has_sign {
                    assert(body == s@.drop_first());
                }
            }
            return None;
        }
        let d: u32 = cv - 48;
        let ghost pre = s@.subrange(start as int, i as int);
        let ghost post = s@.subrange(start as int, i + 1 as int);
        proof {
            assert(post.drop_last() =~= pre);
            assert(post.last() == s@[i as int]);
            assert(digits_value(post) == digits_value(pre) * 10 + digit_val(s@[i as int]));
            assert(all_digits(pre));
            lemma_digits_value_nonneg(pre);
        }
        if acc >= 130 {
            // the value already exceeds the i8 range; keep the marker
            proof {
                assert(digits_value(pre) > 129);
                assert(digits_value(post) >= digits_value(pre) * 10);
            }
        } else {
            acc = acc * 10 + d;
        }
        i = i + 1;
        proof {
            assert(all_digits(post)) by {
                assert(forall|j: int|
                    0 <= j < post.len() - 1 ==> is_dec_digit(#[trigger] post[j]) && post[j]
                        == pre[j]);
                assert(is_dec_digit(post[post.len() - 1]));
            }
        }
    }
    proof {
        assert(s@.subrange(start as int, n as int) =~= body);
        assert(all_digits(body));
        lemma_digits_value_nonneg(body);
    }
    let ghost dv = digits_value(body);
    if neg {
        if acc <= 128 {
            let v: i32 = -(acc as i32);
            proof {
                assert(dv == acc as int);
                assert(-128 <= -dv <= 0);
            }
            Some(v as i8)
        } else {
            proof {
                assert(dv >= 129);
                assert(-dv < -128);
            }
            None
        }
    } else {
        if acc <= 127 {
            proof {
                assert(dv == acc as int);
            }
            Some(acc as i8)
        } else {
            proof {
                assert(dv >= 128);
            }
            None
        }
    }
}

} // verus!
