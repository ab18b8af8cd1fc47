//! Parsing and formatting of countdown durations.
//!
//! A duration string is a run of decimal-digit groups, each followed by a
//! unit letter — `h` for hours, `m` for minutes, `s` for seconds, in either
//! case — with whitespace allowed anywhere between; a trailing group without
//! a unit counts as minutes. The accepted range is one minute to one day.
//! Formatting renders seconds back into the canonical `1h 30m 00s` shape.

use vstd::arithmetic::div_mod::{
    lemma_div_is_ordered, lemma_fundamental_div_mod, lemma_mod_division_less_than_divisor,
    lemma_mod_mod, lemma_small_mod,
};
use vstd::prelude::*;
use vstd::string::StrSliceExecFns;
use vstd::string::StringExecFns;

verus! {

/// Shortest duration the countdown accepts: one minute.
pub const MIN_TIMER_SECONDS: u64 = 60;

/// Longest duration the countdown accepts: one day.
pub const MAX_TIMER_SECONDS: u64 = 24 * 60 * 60;

/// Everything above this bound is treated alike by the range checks, so the
/// parser can clamp its accumulators here and never overflow.
const TOTAL_CAP: u64 = 86401;

/// Why a duration string was rejected.
#[derive(Clone, Copy, PartialEq, Eq, Structural, Debug)]
pub enum DurationError {
    /// The string held nothing but whitespace.
    Empty,
    /// A unit letter arrived with no digits before it.
    MissingNumber,
    /// A character that is neither a digit, a unit letter nor whitespace.
    InvalidCharacter,
    /// The string summed to zero seconds.
    Zero,
    /// The duration lies below `MIN_TIMER_SECONDS`.
    TooShort,
    /// The duration lies above `MAX_TIMER_SECONDS`.
    TooLong,
}

impl DurationError {
    /// A human-readable description of the rejection.
    pub fn message(&self) -> (m: &'static str)
        ensures
            m@ == spec_duration_error_message(*self),
    {
        match self {
            DurationError::Empty => "duration cannot be empty",
            DurationError::MissingNumber => "missing number before unit",
            DurationError::InvalidCharacter => "invalid character in duration",
            DurationError::Zero => "duration must be greater than zero",
            DurationError::TooShort => "duration must be at least 60 seconds (1 minute)",
            DurationError::TooLong => "duration must not exceed 86400 seconds (24 hours)",
        }
    }
}

/// The description `DurationError::message` returns for each rejection.
pub open spec fn spec_duration_error_message(e: DurationError) -> Seq<char> {
    match e {
        DurationError::Empty => "duration cannot be empty"@,
        DurationError::MissingNumber => "missing number before unit"@,
        DurationError::InvalidCharacter => "invalid character in duration"@,
        DurationError::Zero => "duration must be greater than zero"@,
        DurationError::TooShort => "duration must be at least 60 seconds (1 minute)"@,
        DurationError::TooLong => "duration must not exceed 86400 seconds (24 hours)"@,
    }
}

/// Whitespace the parser skips.
pub open spec fn spec_is_space(c: char) -> bool {
    c == ' ' || c == '\t' || c == '\n' || c == '\r'
}

/// An ASCII decimal digit.
pub open spec fn spec_is_digit(c: char) -> bool {
    '0' <= c <= '9'
}

/// Numeric value of an ASCII decimal digit.
pub open spec fn spec_digit_val(c: char) -> nat
    recommends
        spec_is_digit(c),
{
    (c as u32 - '0' as u32) as nat
}

/// A unit letter, in either case.
pub open spec fn spec_is_unit(c: char) -> bool {
    c == 'h' || c == 'H' || c == 'm' || c == 'M' || c == 's' || c == 'S'
}

/// Seconds per unit letter.
pub open spec fn spec_unit_multiplier(c: char) -> nat
    recommends
        spec_is_unit(c),
{
    if c == 'h' || c == 'H' {
        3600
    } else if c == 'm' || c == 'M' {
        60
    } else {
        1
    }
}

/// One pass over the duration string from position `i`: `cur` is the digit
/// group read so far (None when no digits are pending), `total` the seconds
/// accumulated from finished groups. Digits extend `cur`, a unit letter folds
/// `cur` into `total`, whitespace is skipped, anything else is rejected, and
/// a digit group left pending at the end counts as minutes.
pub open spec fn spec_parse_loop(s: Seq<char>, i: int, cur: Option<nat>, total: nat) -> Result<
    nat,
    DurationError,
>
    decreases s.len() - i,
{
    if !(0 <= i < s.len()) {
        Ok(
            total + match cur {
                Some(v) => v * 60,
                None => 0,
            },
        )
    } else {
        let c = s[i];
        if spec_is_digit(c) {
            let base = match cur {
                Some(v) => v,
                None => 0,
            };
            spec_parse_loop(s, i + 1, Some(base * 10 + spec_digit_val(c)), total)
        } else if spec_is_unit(c) {
            match cur {
                None => Err(DurationError::MissingNumber),
                Some(v) => spec_parse_loop(s, i + 1, None, total + v * spec_unit_multiplier(c)),
            }
        } else if spec_is_space(c) {
            spec_parse_loop(s, i + 1, cur, total)
        } else {
            Err(DurationError::InvalidCharacter)
        }
    }
}

/// What `parse_duration` returns on each input: the accumulated seconds when
/// they lie in the accepted range, and a distinct rejection otherwise.
pub open spec fn spec_parse_duration(s: Seq<char>) -> Result<u64, DurationError> {
    if s.len() == 0 || (forall|j: int| 0 <= j < s.len() ==> spec_is_space(#[trigger] s[j])) {
        Err(DurationError::Empty)
    } else {
        match spec_parse_loop(s, 0, None, 0) {
            Err(e) => Err(e),
            Ok(total) => if total == 0 {
                Err(DurationError::Zero)
            } else if total < MIN_TIMER_SECONDS {
                Err(DurationError::TooShort)
            } else if total > MAX_TIMER_SECONDS {
                Err(DurationError::TooLong)
            } else {
                Ok(total as u64)
            },
        }
    }
}

/// Parse a duration string such as `30m`, `2h`, `1h30m` or `90s` into
/// seconds. A bare number counts as minutes. Returns the seconds exactly when
/// they lie between one minute and one day, and a distinct error for an
/// empty string, a unit with no number, an unrecognized character, and a sum
/// of zero, below the minimum or above the maximum.
pub fn parse_duration(s: &str) -> (r: Result<u64, DurationError>)
    ensures
        r == spec_parse_duration(s@),
        r matches Ok(secs) ==> MIN_TIMER_SECONDS <= secs <= MAX_TIMER_SECONDS,
{
    let n: usize = s.unicode_len();
    let mut i: usize = 0;
    let mut has_digits = false;
    let mut cur: u64 = 0;
    let mut total: u64 = 0;
    let mut all_space = true;
    let ghost mut gcur: nat = 0;
    let ghost mut gtotal: nat = 0;

    while i < n
        invariant
            i <= n,
            n == s@.len(),
            spec_parse_loop(s@, 0, None, 0) == spec_parse_loop(
                s@,
                i as int,
                if has_digits {
                    Some(gcur)
                } else {
                    None
                },
                gtotal,
            ),
            cur == if gcur > TOTAL_CAP {
                TOTAL_CAP as nat
            } else {
                gcur
            },
            total == if gtotal > TOTAL_CAP {
                TOTAL_CAP as nat
            } else {
                gtotal
            },
            !has_digits ==> gcur == 0,
            all_space <==> (forall|j: int| 0 <= j < i ==> spec_is_space(#[trigger] s@[j])),
        decreases n - i,
    {
        let c = s.get_char(i);
        let code: u32 = c as u32;
        if 48 <= code && code <= 57 {
            let d: u64 = (code - 48) as u64;
            let raw: u64 = cur * 10 + d;
            cur = if raw > TOTAL_CAP {
                TOTAL_CAP
            } else {
                raw
            };
            has_digits = true;
            all_space = false;
            proof {
                assert(!spec_is_space(s@[i as int]));
                gcur = gcur * 10 + spec_digit_val(c);
            }
        } else if c == 'h' || c == 'H' || c == 'm' || c == 'M' || c == 's' || c == 'S' {
            if !has_digits {
                proof {
                    assert(!spec_is_space(s@[i as int]));
                }
                return Err(DurationError::MissingNumber);
            }
            let mult: u64 = if c == 'h' || c == 'H' {
                3600
            } else if c == 'm' || c == 'M' {
                60
            } else {
                1
            };
            let raw: u64 = total + cur * mult;
            total = if raw > TOTAL_CAP {
                TOTAL_CAP
            } else {
                raw
            };
            cur = 0;
            has_digits = false;
            all_space = false;
            proof {
                assert(!spec_is_space(s@[i as int]));
                if c == 'h' || c == 'H' {
                    assert(mult == 3600 && spec_unit_multiplier(c) == 3600);
                } else if c == 'm' || c == 'M' {
                    assert(mult == 60 && spec_unit_multiplier(c) == 60);
                } else {
                    assert(mult == 1 && spec_unit_multiplier(c) == 1);
                }
                gtotal = gtotal + gcur * spec_unit_multiplier(c);
                gcur = 0;
            }
        } else if c == ' ' || c == '\t' || c == '\n' || c == '\r' {
            // whitespace: skipped, the pending digit group is kept
        } else {
            proof {
                assert(!spec_is_space(s@[i as int]));
            }
            return Err(DurationError::InvalidCharacter);
        }
        i = i + 1;
    }

    if all_space {
        return Err(DurationError::Empty);
    }

    if has_digits {
        let raw: u64 = total + cur * 60;
        total = if raw > TOTAL_CAP {
            TOTAL_CAP
        } else {
            raw
        };
        proof {
            gtotal = gtotal + gcur * 60;
        }
    }

    if total == 0 {
        Err(DurationError::Zero)
    } else if total < MIN_TIMER_SECONDS {
        Err(DurationError::TooShort)
    } else if total > MAX_TIMER_SECONDS {
        Err(DurationError::TooLong)
    } else {
        Ok(total)
    }
}

/// The ASCII digit for a value below ten.
pub open spec fn spec_digit_char(d: nat) -> char
    recommends
        d < 10,
{
    if d == 0 {
        '0'
    } else if d == 1 {
        '1'
    } else if d == 2 {
        '2'
    } else if d == 3 {
        '3'
    } else if d == 4 {
        '4'
    } else if d == 5 {
        '5'
    } else if d == 6 {
        '6'
    } else if d == 7 {
        '7'
    } else if d == 8 {
        '8'
    } else {
        '9'
    }
}

/// Decimal digits of `n`, most significant first, with no leading zero
/// (except for `n == 0` itself).
pub open spec fn spec_dec_digits(n: nat) -> Seq<char>
    decreases n,
{
    if n < 10 {
        seq![spec_digit_char(n)]
    } else {
        spec_dec_digits(n / 10).push(spec_digit_char(n % 10))
    }
}

/// Decimal digits of `n`, zero-padded on the left to two places.
pub open spec fn spec_pad2(n: nat) -> Seq<char>
    recommends
        n < 100,
{
    if n < 10 {
        seq!['0'] + spec_dec_digits(n)
    } else {
        spec_dec_digits(n)
    }
}

/// The canonical rendering of a duration: `2h 30m 45s` when there are hours,
/// `1m 30s` when only minutes, `45s` otherwise, with minutes and seconds
/// zero-padded whenever a larger unit precedes them.
pub open spec fn spec_format_duration(t: nat) -> Seq<char> {
    let hours = t / 3600;
    let minutes = (t % 3600) / 60;
    let secs = t % 60;
    if hours > 0 {
        spec_dec_digits(hours) + seq!['h', ' '] + spec_pad2(minutes) + seq!['m', ' '] + spec_pad2(
            secs,
        ) + seq!['s']
    } else if minutes > 0 {
        spec_dec_digits(minutes) + seq!['m', ' '] + spec_pad2(secs) + seq!['s']
    } else {
        spec_dec_digits(secs) + seq!['s']
    }
}

/// Append the ASCII digit for a value below ten.
fn push_digit(out: &mut String, d: u64)
    requires
        d < 10,
    ensures
        final(out)@ == old(out)@.push(spec_digit_char(d as nat)),
{
    if d == 0 {
        out.append("0");
        proof {
            reveal_strlit("0");
            assert(out@ =~= old(out)@.push('0'));
        }
    } else if d == 1 {
        out.append("1");
        proof {
            reveal_strlit("1");
            assert(out@ =~= old(out)@.push('1'));
        }
    } else if d == 2 {
        out.append("2");
        proof {
            reveal_strlit("2");
            assert(out@ =~= old(out)@.push('2'));
        }
    } else if d == 3 {
        out.append("3");
        proof {
            reveal_strlit("3");
            assert(out@ =~= old(out)@.push('3'));
        }
    } else if d == 4 {
        out.append("4");
        proof {
            reveal_strlit("4");
            assert(out@ =~= old(out)@.push('4'));
        }
    } else if d == 5 {
        out.append("5");
        proof {
            reveal_strlit("5");
            assert(out@ =~= old(out)@.push('5'));
        }
    } else if d == 6 {
        out.append("6");
        proof {
            reveal_strlit("6");
            assert(out@ =~= old(out)@.push('6'));
        }
    } else if d == 7 {
        out.append("7");
        proof {
            reveal_strlit("7");
            assert(out@ =~= old(out)@.push('7'));
        }
    } else if d == 8 {
        out.append("8");
        proof {
            reveal_strlit("8");
            assert(out@ =~= old(out)@.push('8'));
        }
    } else {
        out.append("9");
        proof {
            reveal_strlit("9");
            assert(out@ =~= old(out)@.push('9'));
        }
    }
}

/// Append the decimal digits of `n`.
fn append_decimal(out: &mut String, n: u64)
    ensures
        final(out)@ == old(out)@ + spec_dec_digits(n as nat),
    decreases n,
{
    if n >= 10 {
        append_decimal(out, n / 10);
    }
    push_digit(out, n % 10);
    proof {
        if n < 10 {
            assert(out@ =~= old(out)@ + spec_dec_digits(n as nat));
        } else {
            assert(out@ =~= old(out)@ + spec_dec_digits(n as nat));
        }
    }
}

/// Append the decimal digits of `n`, zero-padded to two places.
fn append_pad2(out: &mut String, n: u64)
    requires
        n < 100,
    ensures
        final(out)@ == old(out)@ + spec_pad2(n as nat),
{
    if n < 10 {
        out.append("0");
        proof {
            reveal_strlit("0");
        }
        append_decimal(out, n);
        proof {
            assert(out@ =~= old(out)@ + spec_pad2(n as nat));
        }
    } else {
        append_decimal(out, n);
    }
}

/// Render seconds as a human-readable duration: `2h 30m 45s`, `1m 30s` or
/// `45s`, zero-padding minutes and seconds whenever a larger unit precedes
/// them.
pub fn format_duration(total_secs: u64) -> (r: String)
    ensures
        r@ == spec_format_duration(total_secs as nat),
{
    let hours: u64 = total_secs / 3600;
    let minutes: u64 = (total_secs % 3600) / 60;
    let secs: u64 = total_secs % 60;
    let mut out = String::new();
    if hours > 0 {
        append_decimal(&mut out, hours);
        out.append("h ");
        append_pad2(&mut out, minutes);
        out.append("m ");
        append_pad2(&mut out, secs);
        out.append("s");
        proof {
            reveal_strlit("h ");
            reveal_strlit("m ");
            reveal_strlit("s");
            assert("h "@ =~= seq!['h', ' ']);
            assert("m "@ =~= seq!['m', ' ']);
            assert("s"@ =~= seq!['s']);
            assert(out@ =~= spec_format_duration(total_secs as nat));
        }
    } else if minutes > 0 {
        append_decimal(&mut out, minutes);
        out.append("m ");
        append_pad2(&mut out, secs);
        out.append("s");
        proof {
            reveal_strlit("m ");
            reveal_strlit("s");
            assert("m "@ =~= seq!['m', ' ']);
            assert("s"@ =~= seq!['s']);
            assert(out@ =~= spec_format_duration(total_secs as nat));
        }
    } else {
        append_decimal(&mut out, secs);
        out.append("s");
        proof {
            reveal_strlit("s");
            assert("s"@ =~= seq!['s']);
            assert(out@ =~= spec_format_duration(total_secs as nat));
        }
    }
    out
}


/// The digit characters behave under the parser exactly as their values: a
/// digit is a digit and nothing else, and reads back as itself.
proof fn lemma_digit_char_props(d: nat)
    requires
        d < 10,
    ensures
        spec_is_digit(spec_digit_char(d)),
        spec_digit_val(spec_digit_char(d)) == d,
        !spec_is_unit(spec_digit_char(d)),
        !spec_is_space(spec_digit_char(d)),
{
}

/// Consuming the decimal digits of a number below 100 with no digit group
/// pending leaves the parser just past them with that number pending.
proof fn lemma_parse_loop_number(s: Seq<char>, i: int, v: nat, total: nat)
    requires
        0 <= i,
        v < 100,
        i + spec_dec_digits(v).len() <= s.len(),
        s.subrange(i, i + spec_dec_digits(v).len() as int) == spec_dec_digits(v),
    ensures
        spec_parse_loop(s, i, None, total) == spec_parse_loop(
            s,
            i + spec_dec_digits(v).len() as int,
            Some(v),
            total,
        ),
{
    if v < 10 {
        assert(spec_dec_digits(v) =~= seq![spec_digit_char(v)]);
        assert(s.subrange(i, i + 1)[0] == s[i]);
        assert(s[i] == spec_digit_char(v));
        lemma_digit_char_props(v);
        assert(spec_parse_loop(s, i, None, total) == spec_parse_loop(
            s,
            i + 1,
            Some(spec_digit_val(spec_digit_char(v))),
            total,
        ));
    } else {
        let hi = v / 10;
        let lo = v % 10;
        assert(hi < 10 && lo < 10);
        assert(spec_dec_digits(hi) =~= seq![spec_digit_char(hi)]);
        assert(spec_dec_digits(v) =~= seq![spec_digit_char(hi), spec_digit_char(lo)]);
        assert(s.subrange(i, i + 2)[0] == s[i]);
        assert(s.subrange(i, i + 2)[1] == s[i + 1]);
        assert(s[i] == spec_digit_char(hi));
        assert(s[i + 1] == spec_digit_char(lo));
        lemma_digit_char_props(hi);
        lemma_digit_char_props(lo);
        lemma_fundamental_div_mod(v as int, 10);
        assert(spec_parse_loop(s, i, None, total) == spec_parse_loop(
            s,
            i + 1,
            Some(hi),
            total,
        ));
        assert(spec_parse_loop(s, i + 1, Some(hi), total) == spec_parse_loop(
            s,
            i + 2,
            Some(hi * 10 + lo),
            total,
        ));
        assert(hi * 10 + lo == v);
    }
}

/// Consuming a two-place zero-padded number below 100 with no digit group
/// pending leaves the parser two characters further with that number pending.
proof fn lemma_parse_loop_pad2(s: Seq<char>, i: int, v: nat, total: nat)
    requires
        0 <= i,
        v < 100,
        i + 2 <= s.len(),
        s.subrange(i, i + 2) == spec_pad2(v),
    ensures
        spec_parse_loop(s, i, None, total) == spec_parse_loop(s, i + 2, Some(v), total),
{
    if v < 10 {
        assert(spec_dec_digits(v) =~= seq![spec_digit_char(v)]);
        assert(spec_pad2(v) =~= seq!['0', spec_digit_char(v)]);
        assert(s[i] == '0');
        assert(s[i + 1] == spec_digit_char(v));
        lemma_digit_char_props(0);
        lemma_digit_char_props(v);
        assert(spec_digit_val('0') == 0);
        assert(spec_parse_loop(s, i, None, total) == spec_parse_loop(s, i + 1, Some(0), total));
        assert(spec_parse_loop(s, i + 1, Some(0), total) == spec_parse_loop(
            s,
            i + 2,
            Some(0 * 10 + spec_digit_val(spec_digit_char(v))),
            total,
        ));
    } else {
        assert(spec_dec_digits(v).len() == 2) by {
            assert(spec_dec_digits(v / 10) =~= seq![spec_digit_char(v / 10)]);
        }
        lemma_parse_loop_number(s, i, v, total);
    }
}

/// Parsing the canonical rendering of any accepted duration yields exactly
/// that duration back: format and parse round-trip on the accepted range.
#[verifier::rlimit(100)]
pub proof fn lemma_parse_of_canonical(n: u64)
    requires
        MIN_TIMER_SECONDS <= n <= MAX_TIMER_SECONDS,
    ensures
        spec_parse_duration(spec_format_duration(n as nat)) == Ok::<u64, DurationError>(n),
{
    let t = n as nat;
    let h = t / 3600;
    let m = (t % 3600) / 60;
    let sc = t % 60;
    lemma_fundamental_div_mod(t as int, 3600);
    lemma_fundamental_div_mod((t % 3600) as int, 60);
    lemma_mod_mod(t as int, 60, 60);
    lemma_mod_division_less_than_divisor(t as int, 3600);
    lemma_mod_division_less_than_divisor(t as int, 60);
    lemma_mod_division_less_than_divisor((t % 3600) as int, 60);
    assert(t == 3600 * h + 60 * m + sc);
    assert(sc < 60);
    assert(m < 60) by {
        lemma_div_is_ordered((t % 3600) as int, 3599, 60);
    }
    assert(h <= 24) by {
        lemma_div_is_ordered(t as int, 86400, 3600);
    }
    let f = spec_format_duration(t);
    if h > 0 {
        let dh = spec_dec_digits(h);
        let dl = dh.len() as int;
        assert(dl == 1 || dl == 2) by {
            if h < 10 {
                assert(spec_dec_digits(h) =~= seq![spec_digit_char(h)]);
            } else {
                assert(spec_dec_digits(h / 10) =~= seq![spec_digit_char(h / 10)]);
            }
        }
        assert(f == dh + seq!['h', ' '] + spec_pad2(m) + seq!['m', ' '] + spec_pad2(sc)
            + seq!['s']);
        assert(spec_pad2(m).len() == 2 && spec_pad2(sc).len() == 2) by {
            assert(m < 10 ==> spec_dec_digits(m) =~= seq![spec_digit_char(m)]);
            assert(m >= 10 ==> spec_dec_digits(m / 10) =~= seq![spec_digit_char(m / 10)]);
            assert(sc < 10 ==> spec_dec_digits(sc) =~= seq![spec_digit_char(sc)]);
            assert(sc >= 10 ==> spec_dec_digits(sc / 10) =~= seq![spec_digit_char(sc / 10)]);
        }
        assert(f.len() == dl + 9);
        assert(f.subrange(0, dl) =~= dh);
        assert(h < 100);
        lemma_parse_loop_number(f, 0, h, 0);
        assert(f[dl] == 'h');
        assert(spec_parse_loop(f, dl, Some(h), 0) == spec_parse_loop(
            f,
            dl + 1,
            None,
            h * 3600,
        ));
        assert(f[dl + 1] == ' ');
        assert(spec_parse_loop(f, dl + 1, None, h * 3600) == spec_parse_loop(
            f,
            dl + 2,
            None,
            h * 3600,
        ));
        assert(f.subrange(dl + 2, dl + 4) =~= spec_pad2(m));
        lemma_parse_loop_pad2(f, dl + 2, m, h * 3600);
        assert(f[dl + 4] == 'm');
        assert(spec_parse_loop(f, dl + 4, Some(m), h * 3600) == spec_parse_loop(
            f,
            dl + 5,
            None,
            h * 3600 + m * 60,
        ));
        assert(f[dl + 5] == ' ');
        assert(spec_parse_loop(f, dl + 5, None, h * 3600 + m * 60) == spec_parse_loop(
            f,
            dl + 6,
            None,
            h * 3600 + m * 60,
        ));
        assert(f.subrange(dl + 6, dl + 8) =~= spec_pad2(sc));
        lemma_parse_loop_pad2(f, dl + 6, sc, h * 3600 + m * 60);
        assert(f[dl + 8] == 's');
        assert(spec_parse_loop(f, dl + 8, Some(sc), h * 3600 + m * 60) == spec_parse_loop(
            f,
            dl + 9,
            None,
            h * 3600 + m * 60 + sc,
        ));
        assert(spec_parse_loop(f, dl + 9, None, h * 3600 + m * 60 + sc) == Ok::<
            nat,
            DurationError,
        >(h * 3600 + m * 60 + sc));
        assert(spec_parse_loop(f, 0, None, 0) == Ok::<nat, DurationError>(t));
        assert(!spec_is_space(f[f.len() - 1]));
    } else if m > 0 {
        assert(t < 3600) by {
            lemma_mod_division_less_than_divisor(t as int, 3600);
        }
        lemma_small_mod(t, 3600);
        assert(t == 60 * m + sc);
        let dm = spec_dec_digits(m);
        let dl = dm.len() as int;
        assert(dl == 1 || dl == 2) by {
            if m < 10 {
                assert(spec_dec_digits(m) =~= seq![spec_digit_char(m)]);
            } else {
                assert(spec_dec_digits(m / 10) =~= seq![spec_digit_char(m / 10)]);
            }
        }
        assert(f == dm + seq!['m', ' '] + spec_pad2(sc) + seq!['s']);
        assert(spec_pad2(sc).len() == 2) by {
            assert(sc < 10 ==> spec_dec_digits(sc) =~= seq![spec_digit_char(sc)]);
            assert(sc >= 10 ==> spec_dec_digits(sc / 10) =~= seq![spec_digit_char(sc / 10)]);
        }
        assert(f.len() == dl + 5);
        assert(f.subrange(0, dl) =~= dm);
        lemma_parse_loop_number(f, 0, m, 0);
        assert(f[dl] == 'm');
        assert(spec_parse_loop(f, dl, Some(m), 0) == spec_parse_loop(f, dl + 1, None, m * 60));
        assert(f[dl + 1] == ' ');
        assert(spec_parse_loop(f, dl + 1, None, m * 60) == spec_parse_loop(
            f,
            dl + 2,
            None,
            m * 60,
        ));
        assert(f.subrange(dl + 2, dl + 4) =~= spec_pad2(sc));
        lemma_parse_loop_pad2(f, dl + 2, sc, m * 60);
        assert(f[dl + 4] == 's');
        assert(spec_parse_loop(f, dl + 4, Some(sc), m * 60) == spec_parse_loop(
            f,
            dl + 5,
            None,
            m * 60 + sc,
        ));
        assert(spec_parse_loop(f, dl + 5, None, m * 60 + sc) == Ok::<nat, DurationError>(
            m * 60 + sc,
        ));
        assert(spec_parse_loop(f, 0, None, 0) == Ok::<nat, DurationError>(t));
        assert(!spec_is_space(f[f.len() - 1]));
    } else {
        assert(t == sc);
        assert(false);
    }
}

/// Round trip as seen from a caller: whatever accepted string a duration was
/// parsed from, formatting the parsed value and parsing it again gives the
/// same duration.
pub proof fn lemma_duration_round_trip(s: Seq<char>)
    requires
        spec_parse_duration(s) is Ok,
    ensures
        spec_parse_duration(spec_format_duration(spec_parse_duration(s)->Ok_0 as nat))
            == spec_parse_duration(s),
{
    lemma_parse_of_canonical(spec_parse_duration(s)->Ok_0);
}

} // verus!
