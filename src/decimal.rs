//! Reading the decimal text fields of a bar: prices as fixed-point numbers,
//! volumes as unsigned counts.
use vstd::prelude::*;

verus! {

/// Fixed-point units in one whole unit of price (prices keep four decimals).
pub const PRICE_UNITS: i64 = 10000;

/// Largest whole part that a price may have.
pub const PRICE_WHOLE_LIMIT: u64 = 900_000_000_000_000;

pub open spec fn is_digit(c: char) -> bool {
    '0' <= c && c <= '9'
}

pub open spec fn digit_value(c: char) -> int {
    c as int - '0' as int
}

pub open spec fn all_digits(s: Seq<char>) -> bool {
    forall|i: int| 0 <= i < s.len() ==> is_digit(#[trigger] s[i])
}

/// The number written by a string of decimal digits (zero for the empty string).
pub open spec fn digits_value(s: Seq<char>) -> int
    decreases s.len(),
{
    if s.len() == 0 {
        0
    } else {
        10 * digits_value(s.drop_last()) + digit_value(s.last())
    }
}

/// The text of an unsigned count, as `str::parse::<u64>` reads it: an optional
/// `+`, then one or more digits, with a value that fits in `u64`.
pub open spec fn count_value(s: Seq<char>) -> Option<int> {
    let body = if s.len() > 0 && s[0] == '+' {
        s.drop_first()
    } else {
        s
    };
    if body.len() > 0 && all_digits(body) && digits_value(body) <= u64::MAX {
        Some(digits_value(body))
    } else {
        None
    }
}

/// Fraction digits as fixed-point units: the first four digits, padded with zeros.
pub open spec fn fraction_units(f: Seq<char>) -> int {
    digits_value((f + seq!['0', '0', '0', '0']).take(4))
}

/// `b` is `whole.fraction` with the dot at `k`, both parts digits, not both empty.
pub open spec fn dot_at(b: Seq<char>, k: int) -> bool {
    &&& 0 <= k < b.len()
    &&& b[k] == '.'
    &&& all_digits(b.take(k))
    &&& all_digits(b.skip(k + 1))
    &&& b.len() > 1
}

/// An unsigned decimal as (whole part, fraction units): digits, or digits
/// with one dot.
pub open spec fn unsigned_decimal(b: Seq<char>) -> Option<(int, int)> {
    if b.len() > 0 && all_digits(b) {
        Some((digits_value(b), 0))
    } else if exists|k: int| dot_at(b, k) {
        let k = choose|k: int| dot_at(b, k);
        Some((digits_value(b.take(k)), fraction_units(b.skip(k + 1))))
    } else {
        None
    }
}

/// The price that a text writes, in fixed-point units: an optional sign, then
/// an unsigned decimal whose whole part is at most `PRICE_WHOLE_LIMIT`.
/// Digits past the fourth decimal are dropped.
pub open spec fn price_value(s: Seq<char>) -> Option<int> {
    let signed = s.len() > 0 && (s[0] == '-' || s[0] == '+');
    let body = if signed {
        s.drop_first()
    } else {
        s
    };
    match unsigned_decimal(body) {
        Some(p) => if p.0 <= PRICE_WHOLE_LIMIT {
            let units = p.0 * PRICE_UNITS + p.1;
            Some(if s.len() > 0 && s[0] == '-' { -units } else { units })
        } else {
            None
        },
        None => None,
    }
}

pub proof fn lemma_digits_value_nonneg(s: Seq<char>)
    requires
        all_digits(s),
    ensures
        digits_value(s) >= 0,
    decreases s.len(),
{
    if s.len() > 0 {
        lemma_digits_value_nonneg(s.drop_last());
    }
}

/// Dropping digits from the end never makes the value larger.
pub proof fn lemma_digits_prefix_le(s: Seq<char>, i: int)
    requires
        all_digits(s),
        0 <= i <= s.len(),
    ensures
        digits_value(s.take(i)) <= digits_value(s),
    decreases s.len(),
{
    if i < s.len() {
        let d = s.drop_last();
        lemma_digits_prefix_le(d, i);
        lemma_digits_value_nonneg(d);
        assert(d.take(i) =~= s.take(i));
    } else {
        assert(s.take(i) =~= s);
    }
}

proof fn lemma_take_step(s: Seq<char>, i: int)
    requires
        0 <= i < s.len(),
    ensures
        digits_value(s.take(i + 1)) == 10 * digits_value(s.take(i)) + digit_value(s[i]),
{
    assert(s.take(i + 1).drop_last() =~= s.take(i));
}

pub(crate) fn chars_of(s: &str) -> (r: Vec<char>)
    ensures
        r@ == s@,
{
    let mut r: Vec<char> = Vec::new();
    for c in it: s.chars()
        invariant
            it.seq() == s@,
            r@ == it.seq().take(it.index() as int),
    {
        r.push(c);
    }
    r
}

/// End of the run of digits in `v` that starts at `start`.
fn digits_end(v: &Vec<char>, start: usize) -> (end: usize)
    requires
        start <= v.len(),
    ensures
        start <= end <= v.len(),
        all_digits(v@.subrange(start as int, end as int)),
        end == v.len() || !is_digit(v@[end as int]),
{
    let mut end = start;
    while end < v.len() && '0' <= v[end] && v[end] <= '9'
        invariant
            start <= end <= v.len(),
            all_digits(v@.subrange(start as int, end as int)),
        decreases v.len() - end,
    {
        end = end + 1;
        assert(all_digits(v@.subrange(start as int, end as int))) by {
            assert forall|i: int| 0 <= i < end - start implies is_digit(
                #[trigger] v@.subrange(start as int, end as int)[i],
            ) by {
                if i < end - 1 - start {
                    assert(v@.subrange(start as int, end as int)[i] == v@.subrange(
                        start as int,
                        end - 1,
                    )[i]);
                }
            }
        }
    }
    end
}

/// The value of the digits `v[start..end]`, where it is at most `limit`.
fn digits_at_most(v: &Vec<char>, start: usize, end: usize, limit: u64) -> (r: Option<u64>)
    requires
        start <= end <= v.len(),
        all_digits(v@.subrange(start as int, end as int)),
    ensures
        r == (if digits_value(v@.subrange(start as int, end as int)) <= limit {
            Some(digits_value(v@.subrange(start as int, end as int)) as u64)
        } else {
            None
        }),
        r matches Some(n) ==> n as int == digits_value(v@.subrange(start as int, end as int)),
{
    let ghost s = v@.subrange(start as int, end as int);
    proof {
        lemma_digits_value_nonneg(s);
    }
    let mut acc: u64 = 0;
    let mut i = start;
    while i < end
        invariant
            start <= i <= end <= v.len(),
            s == v@.subrange(start as int, end as int),
            all_digits(s),
            acc == digits_value(s.take(i - start)),
            acc <= limit,
        decreases end - i,
    {
        let ghost j = i - start;
        assert(s[j] == v@[i as int]);
        assert(is_digit(s[j]));
        let d = (v[i] as u32 - '0' as u32) as u64;
        proof {
            lemma_take_step(s, j);
        }
        if d > limit || acc > (limit - d) / 10 {
            proof {
                lemma_digits_prefix_le(s, j + 1);
                if d <= limit {
                    assert(acc * 10 + d > limit) by (nonlinear_arith)
                        requires
                            acc > (limit - d) / 10,
                            d <= limit,
                    ;
                }
            }
            return None;
        }
        assert(acc * 10 + d <= limit) by (nonlinear_arith)
            requires
                acc <= (limit - d) / 10,
                d <= limit,
        ;
        acc = acc * 10 + d;
        i = i + 1;
    }
    assert(s.take(end - start) =~= s);
    Some(acc)
}

/// Reads an unsigned count, as `str::parse::<u64>` does.
pub fn parse_count(s: &str) -> (r: Option<u64>)
    ensures
        r matches Some(n) ==> count_value(s@) == Some(n as int),
        r is None ==> count_value(s@) is None,
{
    let v = chars_of(s);
    let start: usize = if v.len() > 0 && v[0] == '+' {
        1
    } else {
        0
    };
    let ghost body = v@.skip(start as int);
    assert(body =~= v@.subrange(start as int, v.len() as int));
    assert(body =~= (if s@.len() > 0 && s@[0] == '+' {
        s@.drop_first()
    } else {
        s@
    }));
    let end = digits_end(&v, start);
    if end == start || end < v.len() {
        if end < v.len() {
            assert(body[end - start] == v@[end as int]);
        }
        return None;
    }
    digits_at_most(&v, start, end, u64::MAX)
}

/// The fraction digits `v[start..end]` as fixed-point units.
fn fraction_at(v: &Vec<char>, start: usize, end: usize) -> (r: i64)
    requires
        start <= end <= v.len(),
        all_digits(v@.subrange(start as int, end as int)),
    ensures
        r == fraction_units(v@.subrange(start as int, end as int)),
        0 <= r < PRICE_UNITS,
{
    let ghost f = v@.subrange(start as int, end as int);
    let ghost padded = f + seq!['0', '0', '0', '0'];
    let mut acc: i64 = 0;
    let mut j: usize = 0;
    while j < 4
        invariant
            start <= end <= v.len(),
            f == v@.subrange(start as int, end as int),
            padded == f + seq!['0', '0', '0', '0'],
            all_digits(f),
            j <= 4,
            acc == digits_value(padded.take(j as int)),
            0 <= acc < [1int, 10, 100, 1000, 10000][j as int],
        decreases 4 - j,
    {
        let c = if j < end - start {
            v[start + j]
        } else {
            '0'
        };
        assert(padded[j as int] == c);
        assert(is_digit(c));
        proof {
            lemma_take_step(padded, j as int);
        }
        acc = acc * 10 + (c as u32 - '0' as u32) as i64;
        j = j + 1;
    }
    acc
}

/// Reads a price in fixed-point units: an optional sign, then digits with at
/// most one dot.
pub fn parse_price(s: &str) -> (r: Option<i64>)
    ensures
        r matches Some(n) ==> price_value(s@) == Some(n as int),
        r is None ==> price_value(s@) is None,
{
    let v = chars_of(s);
    let signed = v.len() > 0 && (v[0] == '-' || v[0] == '+');
    let negative = v.len() > 0 && v[0] == '-';
    let start: usize = if signed {
        1
    } else {
        0
    };
    let ghost body = v@.skip(start as int);
    assert(body =~= v@.subrange(start as int, v.len() as int));
    assert(body =~= (if s@.len() > 0 && (s@[0] == '-' || s@[0] == '+') {
        s@.drop_first()
    } else {
        s@
    }));
    let int_end = digits_end(&v, start);
    let ghost k = int_end - start;
    assert(body.take(k) =~= v@.subrange(start as int, int_end as int));
    let whole: u64;
    let frac: i64;
    if int_end == v.len() {
        if int_end == start {
            return None;
        }
        assert(body.take(k) =~= body);
        whole = match digits_at_most(&v, start, int_end, PRICE_WHOLE_LIMIT) {
            Some(w) => w,
            None => {
                return None;
            },
        };
        frac = 0;
    } else {
        assert(body[k] == v@[int_end as int]);
        if v[int_end] != '.' {
            assert forall|j: int| !dot_at(body, j) by {
                if 0 <= j < k {
                    assert(body.take(k)[j] == body[j]);
                } else if k < j < body.len() {
                    assert(body.take(j)[k] == body[k]);
                }
            }
            assert(!all_digits(body));
            return None;
        }
        let frac_end = digits_end(&v, int_end + 1);
        if frac_end < v.len() || v.len() - start == 1 {
            assert forall|j: int| !dot_at(body, j) by {
                if 0 <= j < k {
                    assert(body.take(k)[j] == body[j]);
                } else if k < j < body.len() {
                    assert(body.take(j)[k] == body[k]);
                } else if j == k && frac_end < v.len() {
                    assert(body.skip(k + 1)[frac_end - int_end - 1] == v@[frac_end as int]);
                    assert(!is_digit(body.skip(k + 1)[frac_end - int_end - 1]));
                }
            }
            assert(!all_digits(body)) by {
                assert(!is_digit(body[k]));
            }
            return None;
        }
        assert(body.skip(k + 1) =~= v@.subrange(int_end + 1, frac_end as int));
        assert(dot_at(body, k));
        assert forall|j: int| dot_at(body, j) implies j == k by {
            if j < k {
                assert(body.take(k)[j] == body[j]);
            } else if j > k {
                assert(body.take(j)[k] == body[k]);
            }
        }
        assert(!all_digits(body)) by {
            assert(!is_digit(body[k]));
        }
        whole = match digits_at_most(&v, start, int_end, PRICE_WHOLE_LIMIT) {
            Some(w) => w,
            None => {
                return None;
            },
        };
        frac = fraction_at(&v, int_end + 1, frac_end);
    }
    assert(whole <= PRICE_WHOLE_LIMIT);
    let units = whole as i64 * PRICE_UNITS + frac;
    Some(
        if negative {
            -units
        } else {
            units
        },
    )
}

} // verus!
