//! Numbers as they are written in a gesture log: plain decimal text.

use vstd::prelude::*;
use crate::units::THOUSANDTHS_PER_UNIT;

verus! {

/// Whether `c` is one of the ten decimal digits.
pub open spec fn is_digit(c: char) -> bool {
    '0' <= c && c <= '9'
}

/// The number that the digit `c` stands for.
pub open spec fn digit_value(c: char) -> int {
    c as int - '0' as int
}

/// Whether every character of `s` is a decimal digit.
pub open spec fn all_digits(s: Seq<char>) -> bool {
    forall|i: int| 0 <= i < s.len() ==> is_digit(#[trigger] s[i])
}

/// The number that a run of digits denotes, most significant digit first.
/// The empty run denotes zero.
pub open spec fn digits_value(s: Seq<char>) -> int
    decreases s.len(),
{
    if s.len() == 0 {
        0
    } else {
        digits_value(s.drop_last()) * 10 + digit_value(s.last())
    }
}

/// What a token denotes as a count: `Some` for a non-empty run of digits
/// whose number fits in a `u32`, `None` for anything else.
pub open spec fn count_of(s: Seq<char>) -> Option<u32> {
    if s.len() > 0 && all_digits(s) && digits_value(s) <= u32::MAX as int {
        Some(digits_value(s) as u32)
    } else {
        None
    }
}

/// How many characters of `s` are its sign: one if it starts with `+` or
/// `-`, none otherwise.
pub open spec fn sign_len(s: Seq<char>) -> int {
    if s.len() > 0 && (s[0] == '+' || s[0] == '-') {
        1
    } else {
        0
    }
}

/// The position of the first `.` in `s`, or the length of `s` if it has
/// none.
pub open spec fn point_index(s: Seq<char>) -> int
    decreases s.len(),
{
    if s.len() == 0 || s[0] == '.' {
        0
    } else {
        1 + point_index(s.drop_first())
    }
}

/// The digits of `s` before its decimal point, its sign left out.
pub open spec fn whole_part(s: Seq<char>) -> Seq<char> {
    let body = s.skip(sign_len(s));
    body.take(point_index(body))
}

/// The digits of `s` after its decimal point; empty if it has no point.
pub open spec fn fraction_part(s: Seq<char>) -> Seq<char> {
    let body = s.skip(sign_len(s));
    if point_index(body) < body.len() {
        body.skip(point_index(body) + 1)
    } else {
        Seq::empty()
    }
}

/// The digit at place `i` of a fraction, zero past its end.
pub open spec fn fraction_digit(fraction: Seq<char>, i: int) -> int {
    if 0 <= i < fraction.len() {
        digit_value(fraction[i])
    } else {
        0
    }
}

/// A fraction in thousandths: its first three digits count, any further
/// digits are cut off.
pub open spec fn fraction_thousandths(fraction: Seq<char>) -> int {
    fraction_digit(fraction, 0) * 100 + fraction_digit(fraction, 1) * 10 + fraction_digit(
        fraction,
        2,
    )
}

/// Whether `s` is a decimal number: an optional sign, digits, and
/// optionally a point and more digits, with at least one digit in all.
pub open spec fn is_decimal(s: Seq<char>) -> bool {
    &&& all_digits(whole_part(s))
    &&& all_digits(fraction_part(s))
    &&& whole_part(s).len() + fraction_part(s).len() > 0
}

/// The size of a decimal number in thousandths, its sign left out.
pub open spec fn decimal_magnitude(s: Seq<char>) -> int {
    digits_value(whole_part(s)) * THOUSANDTHS_PER_UNIT as int + fraction_thousandths(
        fraction_part(s),
    )
}

/// What a token denotes in thousandths: `Some` for a decimal number whose
/// size in thousandths fits in an `i32`, `None` for anything else.
pub open spec fn thousandths_of(s: Seq<char>) -> Option<i32> {
    if is_decimal(s) && decimal_magnitude(s) <= i32::MAX as int {
        if s[0] == '-' {
            Some((-decimal_magnitude(s)) as i32)
        } else {
            Some(decimal_magnitude(s) as i32)
        }
    } else {
        None
    }
}

/// A run of digits denotes a number that is not negative.
proof fn lemma_digits_value_nonnegative(s: Seq<char>)
    requires
        all_digits(s),
    ensures
        digits_value(s) >= 0,
    decreases s.len(),
{
    if s.len() > 0 {
        lemma_digits_value_nonnegative(s.drop_last());
    }
}

/// The first point of `s` is at `k` when no character before `k` is a
/// point and `k` is the end of `s` or holds one.
proof fn lemma_point_index_is(s: Seq<char>, k: int)
    requires
        0 <= k <= s.len(),
        forall|i: int| 0 <= i < k ==> s[i] != '.',
        k == s.len() || s[k] == '.',
    ensures
        point_index(s) == k,
    decreases s.len(),
{
    if k > 0 {
        let rest = s.drop_first();
        assert forall|i: int| 0 <= i < k - 1 implies rest[i] != '.' by {
            assert(rest[i] == s[i + 1]);
        }
        lemma_point_index_is(rest, k - 1);
    }
}

/// The first point of `s` lies past a prefix that holds no point.
proof fn lemma_point_index_past(s: Seq<char>, k: int)
    requires
        0 <= k <= s.len(),
        forall|i: int| 0 <= i < k ==> s[i] != '.',
    ensures
        k <= point_index(s) <= s.len(),
    decreases s.len(),
{
    if s.len() > 0 && s[0] != '.' {
        let rest = s.drop_first();
        if k > 0 {
            assert forall|i: int| 0 <= i < k - 1 implies rest[i] != '.' by {
                assert(rest[i] == s[i + 1]);
            }
            lemma_point_index_past(rest, k - 1);
        } else {
            lemma_point_index_past(rest, 0);
        }
    }
}

/// The two parts of a token whose digits after the sign run up to `point`,
/// where the token ends or holds a point.
proof fn lemma_decimal_parts(s: Seq<char>, point: int)
    requires
        sign_len(s) <= point <= s.len(),
        all_digits(s.subrange(sign_len(s), point)),
        point == s.len() || s[point] == '.',
    ensures
        whole_part(s) == s.subrange(sign_len(s), point),
        point < s.len() ==> fraction_part(s) == s.subrange(point + 1, s.len() as int),
        point == s.len() ==> fraction_part(s) == Seq::<char>::empty(),
{
    let start = sign_len(s);
    let body = s.skip(start);
    assert forall|i: int| 0 <= i < point - start implies body[i] != '.' by {
        assert(s.subrange(start, point)[i] == body[i]);
    }
    lemma_point_index_is(body, point - start);
    assert(body.take(point - start) =~= s.subrange(start, point));
    if point < s.len() {
        assert(body.skip(point - start + 1) =~= s.subrange(point + 1, s.len() as int));
    }
}

/// A token whose digits after the sign are followed by a character that is
/// neither a digit nor a point is no decimal number.
proof fn lemma_stray_character(s: Seq<char>, at: int)
    requires
        sign_len(s) <= at < s.len(),
        all_digits(s.subrange(sign_len(s), at)),
        !is_digit(s[at]),
        s[at] != '.',
    ensures
        !is_decimal(s),
{
    let start = sign_len(s);
    let body = s.skip(start);
    assert forall|i: int| 0 <= i < at - start + 1 implies body[i] != '.' by {
        if i < at - start {
            assert(s.subrange(start, at)[i] == body[i]);
        }
    }
    lemma_point_index_past(body, at - start + 1);
    assert(whole_part(s)[at - start] == s[at]);
}

/// The thousandths of a fraction of digits lie between 0 and 999.
proof fn lemma_fraction_thousandths_range(fraction: Seq<char>)
    requires
        all_digits(fraction),
    ensures
        0 <= fraction_thousandths(fraction) <= 999,
{
    if fraction.len() > 0 {
        assert(is_digit(fraction[0]));
    }
    if fraction.len() > 1 {
        assert(is_digit(fraction[1]));
    }
    if fraction.len() > 2 {
        assert(is_digit(fraction[2]));
    }
}

/// Whether `c` is a decimal digit.
fn char_is_digit(c: char) -> (r: bool)
    ensures
        r == is_digit(c),
{
    '0' <= c && c <= '9'
}

/// Reads the run of digits that starts at `start`.  Returns where the run
/// ends and, if it is no more than `limit`, the number it denotes.
fn scan_digits(token: &[char], start: usize, limit: u32) -> (r: (usize, Option<u32>))
    requires
        start <= token@.len(),
    ensures
        start <= r.0 <= token@.len(),
        all_digits(token@.subrange(start as int, r.0 as int)),
        r.0 == token@.len() || !is_digit(token@[r.0 as int]),
        digits_value(token@.subrange(start as int, r.0 as int)) >= 0,
        r.1 == if digits_value(token@.subrange(start as int, r.0 as int)) <= limit {
            Some(digits_value(token@.subrange(start as int, r.0 as int)) as u32)
        } else {
            None
        },
{
    let mut value: u64 = 0;
    let mut fits: bool = true;
    let mut i: usize = start;
    while i < token.len() && char_is_digit(token[i])
        invariant
            start <= i <= token@.len(),
            all_digits(token@.subrange(start as int, i as int)),
            fits ==> value as int == digits_value(token@.subrange(start as int, i as int)),
            fits ==> value <= limit,
            !fits ==> digits_value(token@.subrange(start as int, i as int)) > limit,
        decreases token@.len() - i,
    {
        let digit: u64 = (token[i] as u32 - '0' as u32) as u64;
        proof {
            let run = token@.subrange(start as int, i + 1);
            assert(run.drop_last() =~= token@.subrange(start as int, i as int));
            assert(run.last() == token@[i as int]);
            assert forall|j: int| 0 <= j < run.len() implies is_digit(#[trigger] run[j]) by {
                if j < run.len() - 1 {
                    assert(token@.subrange(start as int, i as int)[j] == run[j]);
                }
            }
            lemma_digits_value_nonnegative(run.drop_last());
        }
        if fits {
            value = value * 10 + digit;
            if value > limit as u64 {
                fits = false;
            }
        }
        i = i + 1;
    }
    if fits {
        (i, Some(value as u32))
    } else {
        (i, None)
    }
}

/// Reads a token as a count.
pub fn parse_count(token: &[char]) -> (r: Option<u32>)
    ensures
        r == count_of(token@),
{
    let (end, value) = scan_digits(token, 0, u32::MAX);
    proof {
        if end == token@.len() {
            assert(token@.subrange(0, end as int) =~= token@);
        }
    }
    if token.len() > 0 && end == token.len() {
        value
    } else {
        None
    }
}

/// The digit of the fraction that starts at `first`, at place `place`; zero
/// past the end of the token.
fn fraction_digit_at(token: &[char], first: usize, place: usize) -> (d: u32)
    requires
        first <= token@.len(),
        place <= 2,
        all_digits(token@.subrange(first as int, token@.len() as int)),
    ensures
        d as int == fraction_digit(
            token@.subrange(first as int, token@.len() as int),
            place as int,
        ),
        d <= 9,
{
    if token.len() - first > place {
        proof {
            let fraction = token@.subrange(first as int, token@.len() as int);
            assert(is_digit(fraction[place as int]));
        }
        token[first + place] as u32 - '0' as u32
    } else {
        0
    }
}

/// Reads a token as a decimal number, in thousandths.
pub fn parse_thousandths(token: &[char]) -> (r: Option<i32>)
    ensures
        r == thousandths_of(token@),
{
    let n = token.len();
    let start: usize = if n > 0 && (token[0] == '+' || token[0] == '-') {
        1
    } else {
        0
    };
    let negative = n > 0 && token[0] == '-';
    let (point, whole) = scan_digits(token, start, 2_147_483);
    if point < n && token[point] != '.' {
        proof {
            lemma_stray_character(token@, point as int);
        }
        return None;
    }
    let first: usize = if point < n {
        point + 1
    } else {
        n
    };
    let (end, _) = scan_digits(token, first, 0);
    proof {
        lemma_decimal_parts(token@, point as int);
        assert(fraction_part(token@) =~= token@.subrange(first as int, n as int));
    }
    if end < n {
        proof {
            assert(fraction_part(token@)[end - first] == token@[end as int]);
        }
        return None;
    }
    if point - start == 0 && n - first == 0 {
        return None;
    }
    proof {
        lemma_fraction_thousandths_range(fraction_part(token@));
    }
    match whole {
        None => None,
        Some(units) => {
            let tenths = fraction_digit_at(token, first, 0);
            let hundredths = fraction_digit_at(token, first, 1);
            let thousandths = fraction_digit_at(token, first, 2);
            let size: i64 = units as i64 * 1000 + (tenths * 100 + hundredths * 10
                + thousandths) as i64;
            if size > 2_147_483_647 {
                None
            } else if negative {
                Some((-size) as i32)
            } else {
                Some(size as i32)
            }
        },
    }
}

} // verus!
