//! Decimal text for milli-unit values.
//!
//! A value in milli-units prints as a plain decimal with up to three
//! fractional digits, trailing zeros trimmed (`70000` prints as `70`,
//! `-2500` as `-2.5`). Parsing accepts an optional leading minus, one to
//! twelve integer digits, and optionally a dot with one to three
//! fractional digits; everything else is rejected.

use vstd::prelude::*;

use vstd::string::StrSliceExecFns;
use vstd::string::StringExecFns;

verus! {

/// The digit character for `d`.
pub open spec fn digit_char(d: int) -> char {
    if d == 0 {
        '0'
    } else if d == 1 {
        '1'
    } else if d == 2 {
        '2'
    } else if d == 3 {
        '3'
    } else if d == 4 {
        '4'
    } else if d == 5 {
        '5'
    } else if d == 6 {
        '6'
    } else if d == 7 {
        '7'
    } else if d == 8 {
        '8'
    } else {
        '9'
    }
}

/// The value of a digit character, `-1` for any other character.
pub open spec fn char_digit(c: char) -> int {
    if c == '0' {
        0
    } else if c == '1' {
        1
    } else if c == '2' {
        2
    } else if c == '3' {
        3
    } else if c == '4' {
        4
    } else if c == '5' {
        5
    } else if c == '6' {
        6
    } else if c == '7' {
        7
    } else if c == '8' {
        8
    } else if c == '9' {
        9
    } else {
        -1
    }
}

/// Whether `c` is a decimal digit.
pub open spec fn is_digit(c: char) -> bool {
    0 <= char_digit(c) <= 9
}

/// Whether every character of `s` is a decimal digit.
pub open spec fn all_digits(s: Seq<char>) -> bool {
    forall|i: int| 0 <= i < s.len() ==> is_digit(#[trigger] s[i])
}

/// Ten to the `n`.
pub open spec fn pow10(n: nat) -> int
    decreases n,
{
    if n == 0 {
        1
    } else {
        10 * pow10((n - 1) as nat)
    }
}

/// The number a sequence of digit characters denotes.
pub open spec fn digits_val(s: Seq<char>) -> int
    decreases s.len(),
{
    if s.len() == 0 {
        0
    } else {
        digits_val(s.drop_last()) * 10 + char_digit(s.last())
    }
}

/// A digit string of length `n` denotes a value below `pow10(n)`.
pub proof fn lemma_digits_val_bound(s: Seq<char>)
    requires
        all_digits(s),
    ensures
        0 <= digits_val(s) < pow10(s.len()),
    decreases s.len(),
{
    if s.len() > 0 {
        assert(all_digits(s.drop_last())) by {
            assert(forall|i: int|
                0 <= i < s.len() - 1 ==> s.drop_last()[i] == #[trigger] s[i]);
        }
        lemma_digits_val_bound(s.drop_last());
        let v = digits_val(s.drop_last());
        assert(v * 10 <= (pow10((s.len() - 1) as nat) - 1) * 10) by (nonlinear_arith)
            requires
                0 <= v <= pow10((s.len() - 1) as nat) - 1,
        ;
        assert(v * 10 >= 0) by (nonlinear_arith)
            requires
                v >= 0,
        ;
    }
}

/// The decimal digits of a nonnegative number, most significant first.
pub open spec fn spec_dec_digits(m: int) -> Seq<char>
    decreases m,
{
    if m < 10 {
        seq![digit_char(m)]
    } else {
        spec_dec_digits(m / 10).push(digit_char(m % 10))
    }
}

/// The fractional digits of `f` milli-units (`1 <= f <= 999`), trailing
/// zeros trimmed: thousandths when the thousandths digit is live, else
/// hundredths, else only tenths.
pub open spec fn spec_frac_digits(f: int) -> Seq<char> {
    if f % 10 != 0 {
        seq![digit_char(f / 100), digit_char((f / 10) % 10), digit_char(f % 10)]
    } else if (f / 10) % 10 != 0 {
        seq![digit_char(f / 100), digit_char((f / 10) % 10)]
    } else {
        seq![digit_char(f / 100)]
    }
}

/// The decimal text of a nonnegative milli-unit value: the integer part,
/// then a dot and the trimmed fractional digits when a fraction is live.
pub open spec fn spec_format_nonneg(m: int) -> Seq<char> {
    if m % 1000 == 0 {
        spec_dec_digits(m / 1000)
    } else {
        spec_dec_digits(m / 1000) + seq!['.'] + spec_frac_digits(m % 1000)
    }
}

/// The decimal text of a milli-unit value, a leading minus when negative.
pub open spec fn spec_format_milli(v: int) -> Seq<char> {
    if v < 0 {
        seq!['-'] + spec_format_nonneg(-v)
    } else {
        spec_format_nonneg(v)
    }
}

/// The index of the first occurrence of `c` in `s`, or the length of `s`
/// when it has none.
pub open spec fn spec_char_index(s: Seq<char>, c: char) -> int
    decreases s.len(),
{
    if s.len() == 0 {
        0
    } else if s[0] == c {
        0
    } else {
        1 + spec_char_index(s.drop_first(), c)
    }
}

/// The index of the first dot of `s`, or its length when it has none.
pub open spec fn spec_dot_index(s: Seq<char>) -> int {
    spec_char_index(s, '.')
}

/// The value of a fractional digit string in milli-units: tenths weigh a
/// hundred, hundredths ten, thousandths one.
pub open spec fn spec_frac_val(s: Seq<char>) -> int {
    if s.len() == 1 {
        digits_val(s) * 100
    } else if s.len() == 2 {
        digits_val(s) * 10
    } else {
        digits_val(s)
    }
}

/// The milli-unit value an unsigned decimal body denotes, if it is valid:
/// one to twelve integer digits, optionally a dot and one to three
/// fractional digits.
pub open spec fn spec_parse_body(s: Seq<char>) -> Option<int> {
    let d = spec_dot_index(s);
    if d == s.len() {
        if 1 <= s.len() <= 12 && all_digits(s) {
            Some(digits_val(s) * 1000)
        } else {
            None
        }
    } else {
        let ip = s.take(d);
        let fp = s.skip(d + 1);
        if 1 <= ip.len() <= 12 && all_digits(ip) && 1 <= fp.len() <= 3 && all_digits(fp) {
            Some(digits_val(ip) * 1000 + spec_frac_val(fp))
        } else {
            None
        }
    }
}

/// The milli-unit value a decimal text denotes, if it is valid: an
/// optional leading minus, then a valid unsigned body.
pub open spec fn spec_parse_milli(s: Seq<char>) -> Option<int> {
    if s.len() > 0 && s[0] == '-' {
        match spec_parse_body(s.skip(1)) {
            Some(v) => Some(-v),
            None => None,
        }
    } else {
        spec_parse_body(s)
    }
}

/// The one-character text of a digit.
fn digit_str(d: u64) -> (r: &'static str)
    requires
        d < 10,
    ensures
        r@ == seq![digit_char(d as int)],
{
    proof {
        reveal_strlit("0");
        reveal_strlit("1");
        reveal_strlit("2");
        reveal_strlit("3");
        reveal_strlit("4");
        reveal_strlit("5");
        reveal_strlit("6");
        reveal_strlit("7");
        reveal_strlit("8");
        reveal_strlit("9");
    }
    let r = if d == 0 {
        "0"
    } else if d == 1 {
        "1"
    } else if d == 2 {
        "2"
    } else if d == 3 {
        "3"
    } else if d == 4 {
        "4"
    } else if d == 5 {
        "5"
    } else if d == 6 {
        "6"
    } else if d == 7 {
        "7"
    } else if d == 8 {
        "8"
    } else {
        "9"
    };
    proof {
        assert(r@ =~= seq![digit_char(d as int)]);
    }
    r
}

/// The digit value of a character, or nothing for a non-digit.
fn digit_of_char(c: char) -> (r: Option<u64>)
    ensures
        r is Some <==> is_digit(c),
        r matches Some(d) ==> d == char_digit(c),
{
    if c == '0' {
        Some(0)
    } else if c == '1' {
        Some(1)
    } else if c == '2' {
        Some(2)
    } else if c == '3' {
        Some(3)
    } else if c == '4' {
        Some(4)
    } else if c == '5' {
        Some(5)
    } else if c == '6' {
        Some(6)
    } else if c == '7' {
        Some(7)
    } else if c == '8' {
        Some(8)
    } else if c == '9' {
        Some(9)
    } else {
        None
    }
}

/// The decimal digits of `m`, most significant first.
fn dec_digits_string(m: u64) -> (s: String)
    ensures
        s@ == spec_dec_digits(m as int),
    decreases m,
{
    if m < 10 {
        String::from_str(digit_str(m))
    } else {
        let mut s = dec_digits_string(m / 10);
        s.append(digit_str(m % 10));
        proof {
            assert(s@ =~= spec_dec_digits(m as int));
        }
        s
    }
}

/// Formats a milli-unit value as decimal text, see [`spec_format_milli`].
pub fn format_milli(v: i64) -> (s: String)
    requires
        -1_000_000_000_000_000 <= v <= 1_000_000_000_000_000,
    ensures
        s@ == spec_format_milli(v as int),
{
    let m: u64 = if v < 0 {
        (-v) as u64
    } else {
        v as u64
    };
    let mut s: String = if v < 0 {
        proof {
            reveal_strlit("-");
        }
        String::from_str("-")
    } else {
        String::new()
    };
    let ip: u64 = m / 1000;
    let f: u64 = m % 1000;
    let dec = dec_digits_string(ip);
    s.append(dec.as_str());
    if f != 0 {
        proof {
            reveal_strlit(".");
        }
        s.append(".");
        let d1: u64 = f / 100;
        let d2: u64 = (f / 10) % 10;
        let d3: u64 = f % 10;
        s.append(digit_str(d1));
        if d3 != 0 {
            s.append(digit_str(d2));
            s.append(digit_str(d3));
        } else if d2 != 0 {
            s.append(digit_str(d2));
        }
    }
    proof {
        assert(s@ =~= spec_format_milli(v as int));
    }
    s
}

/// The first occurrence is where the first occurrence is: scanning to `j`
/// past other characters only, and stopping at `c` or the end, lands on
/// [`spec_char_index`].
pub proof fn lemma_char_index_at(s: Seq<char>, c: char, j: int)
    requires
        0 <= j <= s.len(),
        forall|k: int| 0 <= k < j ==> s[k] != c,
        j < s.len() ==> s[j] == c,
    ensures
        spec_char_index(s, c) == j,
    decreases s.len(),
{
    if s.len() == 0 {
    } else if s[0] == c {
    } else {
        lemma_char_index_at(s.drop_first(), c, j - 1);
    }
}

/// Parses an unsigned digit string: one to twelve digits.
fn parse_digits(s: &str, from: usize, to: usize) -> (r: Option<u64>)
    requires
        from <= to <= s@.len(),
    ensures
        r is Some <==> (1 <= to - from <= 12 && all_digits(s@.subrange(from as int, to as int))),
        r matches Some(v) ==> v == digits_val(s@.subrange(from as int, to as int)) && v
            <= 999_999_999_999,
{
    let ghost whole = s@.subrange(from as int, to as int);
    if from == to || to - from > 12 {
        return None;
    }
    let mut acc: u64 = 0;
    let mut i: usize = from;
    proof {
        lemma_pow10_increases(0, 12);
    }
    while i < to
        invariant
            from <= i <= to <= s@.len(),
            to - from <= 12,
            whole == s@.subrange(from as int, to as int),
            all_digits(s@.subrange(from as int, i as int)),
            acc == digits_val(s@.subrange(from as int, i as int)),
            acc < pow10((i - from) as nat),
            pow10((i - from) as nat) <= pow10(12),
        decreases to - i,
    {
        let c = s.get_char(i);
        proof {
            assert(s@.subrange(from as int, to as int)[i - from] == s@[i as int]);
        }
        match digit_of_char(c) {
            Some(d) => {
                proof {
                    let prev = s@.subrange(from as int, i as int);
                    let cur = s@.subrange(from as int, i + 1);
                    assert(cur.drop_last() =~= prev);
                    assert(cur.last() == s@[i as int]);
                    assert(pow10(((i + 1) - from) as nat) == 10 * pow10((i - from) as nat));
                    assert(acc * 10 + d < 10 * pow10((i - from) as nat)) by (nonlinear_arith)
                        requires
                            0 <= acc < pow10((i - from) as nat),
                            0 <= d <= 9,
                    ;
                    lemma_pow10_12();
                    assert(pow10(((i + 1) - from) as nat) <= pow10(12)) by {
                        lemma_pow10_increases(((i + 1) - from) as nat, 12);
                    }
                    assert(forall|k: int|
                        0 <= k < cur.len() ==> (k < cur.len() - 1 ==> cur[k] == prev[k]));
                }
                acc = acc * 10 + d;
            },
            None => {
                return None;
            },
        }
        i = i + 1;
    }
    proof {
        assert(s@.subrange(from as int, i as int) =~= whole);
        lemma_digits_val_bound(whole);
        assert(pow10(whole.len()) <= pow10(12)) by {
            lemma_pow10_increases(whole.len(), 12);
        }
        lemma_pow10_12();
    }
    Some(acc)
}

/// Ten to the twelfth, spelled out.
proof fn lemma_pow10_12()
    ensures
        pow10(1) == 10,
        pow10(2) == 100,
        pow10(3) == 1000,
        pow10(12) == 1_000_000_000_000,
{
    assert(pow10(0) == 1);
    assert(pow10(1) == 10);
    assert(pow10(2) == 100);
    assert(pow10(3) == 1000);
    assert(pow10(4) == 10_000);
    assert(pow10(5) == 100_000);
    assert(pow10(6) == 1_000_000);
    assert(pow10(7) == 10_000_000);
    assert(pow10(8) == 100_000_000);
    assert(pow10(9) == 1_000_000_000);
    assert(pow10(10) == 10_000_000_000);
    assert(pow10(11) == 100_000_000_000);
    assert(pow10(12) == 1_000_000_000_000);
}

/// Ten to a smaller power is no larger.
proof fn lemma_pow10_increases(a: nat, b: nat)
    requires
        a <= b,
    ensures
        pow10(a) <= pow10(b),
    decreases b,
{
    if a < b {
        lemma_pow10_increases(a, (b - 1) as nat);
        assert(pow10(b) == 10 * pow10((b - 1) as nat));
        assert(pow10(a) >= 1) by {
            lemma_pow10_pos(a);
        }
        assert(pow10((b - 1) as nat) <= 10 * pow10((b - 1) as nat)) by (nonlinear_arith)
            requires
                pow10((b - 1) as nat) >= 0,
        ;
    }
}

/// Ten to any power is positive.
proof fn lemma_pow10_pos(n: nat)
    ensures
        pow10(n) >= 1,
    decreases n,
{
    if n > 0 {
        lemma_pow10_pos((n - 1) as nat);
    }
}

/// Parses decimal text as a milli-unit value, see [`spec_parse_milli`].
/// Text that is not a plain decimal number is rejected, never an error.
pub fn parse_milli(s: &str) -> (r: Option<i64>)
    ensures
        r matches Some(v) ==> spec_parse_milli(s@) == Some(v as int)
            && -1_000_000_000_000_000 <= v <= 1_000_000_000_000_000,
        r is None ==> spec_parse_milli(s@) is None,
{
    let len: usize = s.unicode_len();
    let neg: bool = len > 0 && s.get_char(0) == '-';
    let start: usize = if neg {
        1
    } else {
        0
    };
    let ghost body = s@.skip(start as int);
    proof {
        if !neg {
            assert(body =~= s@);
        }
    }
    // Find the first dot at or after `start`.
    let mut dot: usize = start;
    while dot < len && s.get_char(dot) != '.'
        invariant
            start <= dot <= len,
            len == s@.len(),
            forall|k: int| start <= k < dot ==> s@[k] != '.',
        decreases len - dot,
    {
        dot = dot + 1;
    }
    proof {
        assert(forall|k: int|
            0 <= k < dot - start ==> body[k] == s@[k + start] && s@[k + start] != '.');
        lemma_char_index_at(body, '.', dot - start);
    }
    let int_part: Option<u64> = parse_digits(s, start, dot);
    let iv: u64 = match int_part {
        Some(v) => v,
        None => {
            proof {
                let d = spec_dot_index(body);
                assert(s@.subrange(start as int, dot as int) =~= body.take(d));
                if d == body.len() {
                    assert(body.take(d) =~= body);
                }
                assert(spec_parse_body(body) is None);
            }
            return None;
        },
    };
    proof {
        assert(s@.subrange(start as int, dot as int) =~= body.take(dot - start));
    }
    let milli: u64 = if dot == len {
        proof {
            assert(body.take(dot - start) =~= body);
        }
        iv * 1000
    } else {
        // A dot: one to three fractional digits must follow.
        let frac: Option<u64> = parse_digits(s, dot + 1, len);
        let ghost fp = body.skip(spec_dot_index(body) + 1);
        proof {
            assert(s@.subrange(dot + 1, len as int) =~= fp);
        }
        match frac {
            Some(fv) => {
                let fwidth: usize = len - (dot + 1);
                if fwidth > 3 {
                    proof {
                        assert(fp.len() > 3);
                        assert(spec_parse_body(body) is None);
                    }
                    return None;
                }
                let fmilli: u64 = if fwidth == 1 {
                    fv * 100
                } else if fwidth == 2 {
                    fv * 10
                } else {
                    fv
                };
                proof {
                    lemma_digits_val_bound(fp);
                    lemma_pow10_12();
                    lemma_pow10_increases(fp.len(), 3);
                    assert(fmilli <= 999);
                }
                iv * 1000 + fmilli
            },
            None => {
                proof {
                    assert(!(1 <= fp.len() <= 12 && all_digits(fp)));
                    assert(spec_parse_body(body) is None);
                }
                return None;
            },
        }
    };
    proof {
        assert(milli <= 999_999_999_999_999);
    }
    let signed: i64 = milli as i64;
    if neg {
        proof {
            assert(s@[0] == '-');
        }
        Some(-signed)
    } else {
        proof {
            if len > 0 {
                assert(body =~= s@);
            } else {
                assert(body =~= s@);
            }
        }
        Some(signed)
    }
}

} // verus!
