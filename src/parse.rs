//! Reading the numbers that the user types: a grade as a decimal percentage
//! with at most two places, kept in hundredths, and a credit weight as an
//! integer.
//!
//! Both take an optional leading `+` or `-` and nothing else around the
//! digits. A grade is `digits`, `digits.`, `.digits` or `digits.digits`.
use vstd::prelude::*;

verus! {

pub open spec fn is_digit(c: char) -> bool {
    '0' <= c && c <= '9'
}

pub open spec fn digit_value(c: char) -> int {
    c as int - '0' as int
}

/// Every character is a decimal digit.
pub open spec fn is_numeral(s: Seq<char>) -> bool {
    forall|i: int| 0 <= i < s.len() ==> is_digit(#[trigger] s[i])
}

/// The value of a string of decimal digits (0 for the empty string).
pub open spec fn numeral_value(s: Seq<char>) -> int
    decreases s.len(),
{
    if s.len() == 0 {
        0
    } else {
        10 * numeral_value(s.drop_last()) + digit_value(s.last())
    }
}

pub open spec fn has_sign(s: Seq<char>) -> bool {
    s.len() > 0 && (s[0] == '+' || s[0] == '-')
}

/// What follows the sign, if there is one.
pub open spec fn unsigned_part(s: Seq<char>) -> Seq<char> {
    if has_sign(s) {
        s.subrange(1, s.len() as int)
    } else {
        s
    }
}

pub open spec fn sign_of(s: Seq<char>) -> int {
    if has_sign(s) && s[0] == '-' {
        -1
    } else {
        1
    }
}

/// The integer written as `s`, if it is one and fits an `i32`.
pub open spec fn spec_parse_unit(s: Seq<char>) -> Option<int> {
    let body = unsigned_part(s);
    let v = sign_of(s) * numeral_value(body);
    if body.len() > 0 && is_numeral(body) && i32::MIN <= v <= i32::MAX {
        Some(v)
    } else {
        None
    }
}

/// `body` has its decimal point at `k`, with digits on both sides of it.
pub open spec fn point_at(body: Seq<char>, k: int) -> bool {
    0 <= k < body.len() && body[k] == '.' && is_numeral(body.subrange(0, k)) && is_numeral(
        body.subrange(k + 1, body.len() as int),
    )
}

/// Hundredths of the number with whole digits `whole` and at most two
/// fractional digits `frac`.
pub open spec fn decimal_hundredths(whole: Seq<char>, frac: Seq<char>) -> int {
    100 * numeral_value(whole) + if frac.len() == 1 {
        10 * numeral_value(frac)
    } else {
        numeral_value(frac)
    }
}

/// The unsigned value, in hundredths, of `body`, if it is a decimal number
/// with at most two places.
pub open spec fn unsigned_hundredths(body: Seq<char>) -> Option<int> {
    if body.len() > 0 && is_numeral(body) {
        Some(100 * numeral_value(body))
    } else if exists|k: int| point_at(body, k) {
        let k = choose|k: int| point_at(body, k);
        let whole = body.subrange(0, k);
        let frac = body.subrange(k + 1, body.len() as int);
        if (whole.len() > 0 || frac.len() > 0) && frac.len() <= 2 {
            Some(decimal_hundredths(whole, frac))
        } else {
            None
        }
    } else {
        None
    }
}

/// The grade written as `s`, in hundredths of a percent, if it is a decimal
/// number with at most two places whose magnitude fits an `i64`.
pub open spec fn spec_parse_grade(s: Seq<char>) -> Option<int> {
    match unsigned_hundredths(unsigned_part(s)) {
        Some(v) => if v <= i64::MAX {
            Some(sign_of(s) * v)
        } else {
            None
        },
        None => None,
    }
}

proof fn lemma_numeral_step(s: Seq<char>, from: int, i: int)
    requires
        0 <= from <= i < s.len(),
    ensures
        numeral_value(s.subrange(from, i + 1)) == 10 * numeral_value(s.subrange(from, i))
            + digit_value(s[i]),
{
    assert(s.subrange(from, i + 1).drop_last() =~= s.subrange(from, i));
}

proof fn lemma_numeral_nonneg(s: Seq<char>)
    requires
        is_numeral(s),
    ensures
        numeral_value(s) >= 0,
    decreases s.len(),
{
    if s.len() > 0 {
        assert(is_digit(s[s.len() - 1]));
        lemma_numeral_nonneg(s.drop_last());
    }
}

/// A numeral is worth at least any of its prefixes.
proof fn lemma_numeral_prefix(s: Seq<char>, j: int)
    requires
        is_numeral(s),
        0 <= j <= s.len(),
    ensures
        numeral_value(s.subrange(0, j)) <= numeral_value(s),
    decreases s.len() - j,
{
    if j < s.len() {
        lemma_numeral_step(s, 0, j);
        assert(is_digit(s[j]));
        lemma_numeral_nonneg(s.subrange(0, j));
        lemma_numeral_prefix(s, j + 1);
    } else {
        assert(s.subrange(0, j) =~= s);
    }
}

/// The value of the characters `from..to` of `s`, if they are all digits and
/// the value is at most `limit`.
fn read_numeral(s: &str, from: usize, to: usize, limit: u64) -> (r: Option<u64>)
    requires
        from <= to <= s@.len(),
    ensures
        r is Some <==> (is_numeral(s@.subrange(from as int, to as int)) && numeral_value(
            s@.subrange(from as int, to as int),
        ) <= limit),
        r is Some ==> r.unwrap() == numeral_value(s@.subrange(from as int, to as int)),
{
    let ghost t = s@.subrange(from as int, to as int);
    let mut acc: u64 = 0;
    let mut i: usize = from;
    while i < to
        invariant
            from <= i <= to <= s@.len(),
            t == s@.subrange(from as int, to as int),
            is_numeral(s@.subrange(from as int, i as int)),
            acc == numeral_value(s@.subrange(from as int, i as int)),
            acc <= limit,
        decreases to - i,
    {
        let c = s.get_char(i);
        proof {
            lemma_numeral_step(s@, from as int, i as int);
            assert(s@.subrange(from as int, i as int + 1).subrange(0, i - from) =~= s@.subrange(
                from as int,
                i as int,
            ));
            assert(t.subrange(0, i + 1 - from) =~= s@.subrange(from as int, i as int + 1));
        }
        if c < '0' || c > '9' {
            assert(!is_digit(t[i - from]));
            return None;
        }
        let d = (c as u32 - '0' as u32) as u64;
        if d > limit || acc > (limit - d) / 10 {
            proof {
                assert(is_numeral(s@.subrange(from as int, i as int + 1)));
                assert(numeral_value(s@.subrange(from as int, i as int + 1)) > limit) by (
                nonlinear_arith)
                    requires
                        d > limit || acc > (limit - d) / 10,
                        numeral_value(s@.subrange(from as int, i as int + 1)) == 10 * acc + d,
                        acc >= 0,
                ;
                if is_numeral(t) {
                    lemma_numeral_prefix(t, i + 1 - from);
                }
            }
            return None;
        }
        acc = acc * 10 + d;
        i = i + 1;
        proof {
            assert forall|j: int| 0 <= j < s@.subrange(from as int, i as int).len() implies is_digit(
                #[trigger] s@.subrange(from as int, i as int)[j],
            ) by {
                if j < i - 1 - from {
                    assert(s@.subrange(from as int, i as int)[j] == s@.subrange(
                        from as int,
                        i - 1,
                    )[j]);
                }
            }
        }
    }
    assert(s@.subrange(from as int, i as int) =~= t);
    Some(acc)
}

proof fn lemma_short_numeral(s: Seq<char>)
    requires
        is_numeral(s),
        s.len() <= 2,
    ensures
        0 <= numeral_value(s) <= 99,
        s.len() <= 1 ==> numeral_value(s) <= 9,
{
    if s.len() > 0 {
        assert(is_digit(s[s.len() - 1]));
        let t = s.drop_last();
        assert(numeral_value(s) == 10 * numeral_value(t) + digit_value(s.last()));
        if t.len() > 0 {
            assert(is_digit(s[0]));
            assert(t.last() == s[0]);
            assert(numeral_value(t.drop_last()) == 0);
            assert(numeral_value(t) == 10 * numeral_value(t.drop_last()) + digit_value(t.last()));
        } else {
            assert(numeral_value(t) == 0);
        }
    } else {
        assert(numeral_value(s) == 0);
    }
}

/// A grade that reads as a number fits an `i64`.
pub proof fn lemma_parsed_grade_fits(s: Seq<char>)
    ensures
        spec_parse_grade(s) matches Some(g) ==> i64::MIN < g <= i64::MAX,
{
    let body = unsigned_part(s);
    if body.len() > 0 && is_numeral(body) {
        lemma_numeral_nonneg(body);
    } else if exists|k: int| point_at(body, k) {
        let k = choose|k: int| point_at(body, k);
        lemma_numeral_nonneg(body.subrange(0, k));
        lemma_numeral_nonneg(body.subrange(k + 1, body.len() as int));
    }
}

/// The position of the sign's end: 1 if `s` starts with `+` or `-`, else 0;
/// and whether it is `-`.
fn split_sign(s: &str) -> (r: (usize, bool))
    ensures
        r.0 <= s@.len(),
        s@.subrange(r.0 as int, s@.len() as int) == unsigned_part(s@),
        r.1 == (sign_of(s@) == -1),
{
    let n = s.unicode_len();
    if n > 0 {
        let c = s.get_char(0);
        if c == '+' || c == '-' {
            return (1, c == '-');
        }
    }
    assert(s@.subrange(0, s@.len() as int) =~= s@);
    (0, false)
}

/// Reads a credit weight: an integer with an optional sign that fits an
/// `i32`; `None` for any other text.
pub fn parse_unit(s: &str) -> (r: Option<i32>)
    ensures
        r matches Some(v) ==> spec_parse_unit(s@) == Some(v as int),
        r is None ==> spec_parse_unit(s@) is None,
{
    let n = s.unicode_len();
    let (start, neg) = split_sign(s);
    if start == n {
        return None;
    }
    match read_numeral(s, start, n, 2147483648) {
        None => None,
        Some(v) => {
            if neg {
                Some((0 - v as i64) as i32)
            } else if v <= 2147483647 {
                Some(v as i32)
            } else {
                None
            }
        },
    }
}

/// The first decimal point in `from..to` of `s`, or `to` if there is none.
fn find_point(s: &str, from: usize, to: usize) -> (k: usize)
    requires
        from <= to <= s@.len(),
    ensures
        from <= k <= to,
        k < to ==> s@[k as int] == '.',
        forall|j: int| from <= j < k ==> s@[j] != '.',
{
    let mut k: usize = from;
    while k < to
        invariant
            from <= k <= to <= s@.len(),
            forall|j: int| from <= j < k ==> s@[j] != '.',
        decreases to - k,
    {
        if s.get_char(k) == '.' {
            return k;
        }
        k = k + 1;
    }
    k
}

/// A decimal point of a well-formed decimal is its first one.
proof fn lemma_point_unique(body: Seq<char>, k: int, k2: int)
    requires
        0 <= k < body.len(),
        body[k] == '.',
        forall|j: int| 0 <= j < k ==> body[j] != '.',
        point_at(body, k2),
    ensures
        k2 == k,
{
    if k2 > k {
        assert(body.subrange(0, k2)[k] == '.');
        assert(is_digit(body.subrange(0, k2)[k]));
    }
}

/// Reads a grade: a decimal percentage with an optional sign and at most two
/// places, in hundredths of a percent (`"96.5"` gives `9650`); `None` for any
/// other text and where the magnitude does not fit an `i64`.
pub fn parse_grade(s: &str) -> (r: Option<i64>)
    ensures
        r matches Some(v) ==> spec_parse_grade(s@) == Some(v as int),
        r is None ==> spec_parse_grade(s@) is None,
{
    let n = s.unicode_len();
    let (start, neg) = split_sign(s);
    let ghost body = s@.subrange(start as int, n as int);
    let k = find_point(s, start, n);
    let magnitude: u64;
    if k == n {
        if start == n {
            return None;
        }
        match read_numeral(s, start, n, 92233720368547758) {
            None => {
                return None;
            },
            Some(w) => {
                magnitude = w * 100;
            },
        }
    } else {
        let ghost kb = k - start;
        proof {
            assert(body[kb] == '.');
            assert(!is_numeral(body));
            assert forall|k2: int| point_at(body, k2) implies k2 == kb by {
                lemma_point_unique(body, kb, k2);
            }
            assert(body.subrange(0, kb) =~= s@.subrange(start as int, k as int));
            assert(body.subrange(kb + 1, body.len() as int) =~= s@.subrange(
                k as int + 1,
                n as int,
            ));
        }
        if n - (k + 1) > 2 || (k == start && k + 1 == n) {
            proof {
                if exists|k2: int| point_at(body, k2) {
                    let k2 = choose|k2: int| point_at(body, k2);
                    assert(k2 == kb);
                }
            }
            return None;
        }
        let whole = read_numeral(s, start, k, 92233720368547758);
        let frac = read_numeral(s, k + 1, n, 99);
        proof {
            if is_numeral(s@.subrange(k as int + 1, n as int)) {
                lemma_short_numeral(s@.subrange(k as int + 1, n as int));
            }
        }
        match (whole, frac) {
            (Some(w), Some(f)) => {
                proof {
                    assert(point_at(body, kb));
                }
                let fh = if n - (k + 1) == 1 {
                    f * 10
                } else {
                    f
                };
                magnitude = w * 100 + fh;
            },
            _ => {
                proof {
                    if exists|k2: int| point_at(body, k2) {
                        let k2 = choose|k2: int| point_at(body, k2);
                        assert(k2 == kb);
                    }
                }
                return None;
            },
        }
    }
    if magnitude > 9223372036854775807 {
        return None;
    }
    if neg {
        Some(0 - magnitude as i64)
    } else {
        Some(magnitude as i64)
    }
}

} // verus!
