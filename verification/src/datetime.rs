//! Calendar date and time of day, as the SMP date-time commands carry them:
//! the textual form `YYYY-MM-DDTHH:MM:SS[.fff]`, with fractional seconds
//! quantized down to milliseconds and omitted when zero, and an optional
//! time zone suffix that is accepted and discarded on the way in.

use vstd::prelude::*;

use crate::numfmt::{dec_digit, spec_dec_pad, u64_to_string_pad};

verus! {

/// A naive calendar date and time of day, to nanosecond resolution.
#[derive(Debug, Clone, Copy, PartialEq, Eq, Structural)]
pub struct DateTime {
    /// Four-digit year.
    pub year: u16,
    /// Month, 1 to 12.
    pub month: u8,
    /// Day of month, 1 to 31.
    pub day: u8,
    /// Hour, 0 to 23.
    pub hour: u8,
    /// Minute, 0 to 59.
    pub minute: u8,
    /// Second, 0 to 59.
    pub second: u8,
    /// Nanoseconds within the second.
    pub nanosecond: u32,
}

impl DateTime {
    /// The ranges the wire format can carry.
    pub open spec fn wf(self) -> bool {
        &&& self.year <= 9999
        &&& 1 <= self.month <= 12
        &&& 1 <= self.day <= 31
        &&& self.hour < 24
        &&& self.minute < 60
        &&& self.second < 60
        &&& self.nanosecond < 1000000000
    }

    /// The text this date-time is sent as: seconds resolution, plus a
    /// three-digit fraction when the nanoseconds are not zero.
    pub open spec fn spec_format(self) -> Seq<char> {
        let base = spec_dec_pad(self.year as int, 4) + seq!['-'] + spec_dec_pad(
            self.month as int,
            2,
        ) + seq!['-'] + spec_dec_pad(self.day as int, 2) + seq!['T'] + spec_dec_pad(
            self.hour as int,
            2,
        ) + seq![':'] + spec_dec_pad(self.minute as int, 2) + seq![':'] + spec_dec_pad(
            self.second as int,
            2,
        );
        if self.nanosecond == 0 {
            base
        } else {
            base + seq!['.'] + spec_dec_pad(self.nanosecond as int / 1000000, 3)
        }
    }

    /// Renders the date-time in the form the device accepts.
    pub fn format_zephyr(&self) -> (r: String)
        ensures
            r@ == self.spec_format(),
    {
        proof {
            reveal_strlit("-");
            reveal_strlit("T");
            reveal_strlit(":");
            reveal_strlit(".");
        }
        let mut s = u64_to_string_pad(self.year as u64, 4);
        s.append("-");
        s.append(u64_to_string_pad(self.month as u64, 2).as_str());
        s.append("-");
        s.append(u64_to_string_pad(self.day as u64, 2).as_str());
        s.append("T");
        s.append(u64_to_string_pad(self.hour as u64, 2).as_str());
        s.append(":");
        s.append(u64_to_string_pad(self.minute as u64, 2).as_str());
        s.append(":");
        s.append(u64_to_string_pad(self.second as u64, 2).as_str());
        if self.nanosecond != 0 {
            s.append(".");
            s.append(u64_to_string_pad((self.nanosecond / 1000000) as u64, 3).as_str());
        }
        proof {
            assert(s@ =~= self.spec_format());
        }
        s
    }
}

/// The value of an ASCII decimal digit character, if it is one.
pub open spec fn spec_digit_val(c: char) -> Option<int> {
    if '0' <= c <= '9' {
        Some(c as int - '0' as int)
    } else {
        None
    }
}

/// The number the `w` decimal digit characters at `pos` spell, most
/// significant first; `None` when any of them is not a digit.
pub open spec fn spec_read_digits(s: Seq<char>, pos: int, w: int) -> Option<int>
    recommends
        0 <= pos,
        pos + w <= s.len(),
    decreases w,
{
    if w <= 0 {
        Some(0)
    } else {
        match spec_read_digits(s, pos, w - 1) {
            Some(acc) => match spec_digit_val(s[pos + w - 1]) {
                Some(d) => Some(acc * 10 + d),
                None => None,
            },
            None => None,
        }
    }
}

/// A non-digit anywhere in the window makes the whole read fail.
proof fn lemma_read_digits_none(s: Seq<char>, pos: int, w: int, i: int)
    requires
        0 <= i < w,
        spec_digit_val(s[pos + i]) is None,
    ensures
        spec_read_digits(s, pos, w) is None,
    decreases w,
{
    if i < w - 1 {
        lemma_read_digits_none(s, pos, w - 1, i);
    }
}

/// Reads `w` decimal digit characters at `pos` as a number.
fn parse_digits(s: &Vec<char>, pos: usize, w: usize) -> (r: Option<u64>)
    requires
        pos + w <= s@.len(),
        w <= 9,
    ensures
        ({
            match spec_read_digits(s@, pos as int, w as int) {
                Some(n) => r matches Some(x) && x as int == n,
                None => r is None,
            }
        }),
        r matches Some(x) ==> x < 1000000000,
{
    proof {
        reveal_with_fuel(crate::numfmt::pow10, 11);
    }
    let n = s.len();
    let mut acc: u64 = 0;
    let mut i: usize = 0;
    while i < w
        invariant
            i <= w <= 9,
            n == s@.len(),
            pos + w <= n,
            acc < crate::numfmt::pow10(i as int),
            acc < 1000000000,
            spec_read_digits(s@, pos as int, i as int) == Some(acc as int),
        decreases w - i,
    {
        let c = s[pos + i];
        if c < '0' || c > '9' {
            proof {
                assert(spec_digit_val(s@[pos + i]) is None);
                lemma_read_digits_none(s@, pos as int, w as int, i as int);
            }
            return None;
        }
        let d = (c as u32) - ('0' as u32);
        proof {
            assert(spec_digit_val(s@[pos + i]) == Some(d as int));
        }
        acc = acc * 10 + (d as u64);
        proof {
            reveal_with_fuel(crate::numfmt::pow10, 11);
            assert(crate::numfmt::pow10(i as int + 1) == 10 * crate::numfmt::pow10(i as int));
            crate::numfmt::lemma_pow10_mono(i as int + 1, 9);
            assert(crate::numfmt::pow10(9) == 1000000000);
        }
        i = i + 1;
    }
    Some(acc)
}

/// The fractional-second digits starting at `pos`: at most `left` of them,
/// each weighted by the falling `scale`; stops at the first non-digit.
/// Yields the accumulated nanoseconds and the position just past the digits.
pub open spec fn spec_fraction(s: Seq<char>, pos: int, left: int, scale: int) -> (int, int)
    decreases left,
{
    if left <= 0 || pos >= s.len() {
        (0, pos)
    } else {
        match spec_digit_val(s[pos]) {
            None => (0, pos),
            Some(d) => {
                let rest = spec_fraction(s, pos + 1, left - 1, scale / 10);
                (d * scale + rest.0, rest.1)
            },
        }
    }
}

/// The fraction value is bounded by its leading scale, and its end position
/// stays within the text.
proof fn lemma_fraction_bound(s: Seq<char>, pos: int, left: int, scale: int)
    requires
        scale >= 0,
        0 <= pos <= s.len(),
    ensures
        0 <= spec_fraction(s, pos, left, scale).0 <= 10 * scale,
        scale >= 1 ==> spec_fraction(s, pos, left, scale).0 < 10 * scale,
        pos <= spec_fraction(s, pos, left, scale).1 <= s.len(),
    decreases left,
{
    if !(left <= 0 || pos >= s.len()) {
        if spec_digit_val(s[pos]) is Some {
            let d = spec_digit_val(s[pos])->0;
            lemma_fraction_bound(s, pos + 1, left - 1, scale / 10);
            let rest = spec_fraction(s, pos + 1, left - 1, scale / 10);
            assert(0 <= d <= 9);
            assert(d * scale <= 9 * scale) by (nonlinear_arith)
                requires
                    0 <= d <= 9 && scale >= 0,
            ;
            assert(10 * (scale / 10) <= scale);
            assert(rest.0 <= 10 * (scale / 10));
            if scale >= 1 {
                if scale / 10 >= 1 {
                    assert(rest.0 < 10 * (scale / 10));
                    assert(d * scale + rest.0 < 10 * scale);
                } else {
                    assert(rest.0 == 0);
                    assert(d * scale + rest.0 < 10 * scale);
                }
            }
        }
    }
}

/// Collects the characters of a string.
fn str_chars(s: &str) -> (r: Vec<char>)
    ensures
        r@ == s@,
{
    let mut out: Vec<char> = Vec::new();
    let n = s.unicode_len();
    let mut i: usize = 0;
    while i < n
        invariant
            n == s@.len(),
            i <= n,
            out@ == s@.take(i as int),
        decreases n - i,
    {
        let c = s.get_char(i);
        out.push(c);
        proof {
            assert(out@ =~= s@.take(i as int + 1));
        }
        i = i + 1;
    }
    proof {
        assert(s@.take(n as int) =~= s@);
    }
    out
}

/// Whether the characters from `pos` to the end form an acceptable time
/// zone suffix: nothing, `Z` or `z` alone, or a sign followed by a
/// four-digit offset with hours below 24 and minutes below 60, with or
/// without a colon between them.
pub open spec fn spec_timezone_ok(s: Seq<char>, pos: int) -> bool {
    if pos == s.len() {
        true
    } else if s[pos] == 'Z' || s[pos] == 'z' {
        pos + 1 == s.len()
    } else if s[pos] == '+' || s[pos] == '-' {
        if pos + 5 == s.len() {
            &&& spec_read_digits(s, pos + 1, 2) matches Some(h) && h < 24
            &&& spec_read_digits(s, pos + 3, 2) matches Some(m) && m < 60
        } else if pos + 6 == s.len() {
            &&& s[pos + 3] == ':'
            &&& spec_read_digits(s, pos + 1, 2) matches Some(h) && h < 24
            &&& spec_read_digits(s, pos + 4, 2) matches Some(m) && m < 60
        } else {
            false
        }
    } else {
        false
    }
}

/// Checks the tail from `pos` for an acceptable time zone suffix.
fn timezone_ok(s: &Vec<char>, pos: usize) -> (r: bool)
    requires
        pos <= s@.len(),
    ensures
        r == spec_timezone_ok(s@, pos as int),
{
    if pos == s.len() {
        return true;
    }
    let c = s[pos];
    if c == 'Z' || c == 'z' {
        return pos + 1 == s.len();
    }
    if !(c == '+' || c == '-') {
        return false;
    }
    if s.len() - pos == 5 {
        let h = match parse_digits(s, pos + 1, 2) {
            Some(v) => v,
            None => {
                return false;
            },
        };
        let m = match parse_digits(s, pos + 3, 2) {
            Some(v) => v,
            None => {
                return false;
            },
        };
        h < 24 && m < 60
    } else if s.len() - pos == 6 {
        if s[pos + 3] != ':' {
            return false;
        }
        let h = match parse_digits(s, pos + 1, 2) {
            Some(v) => v,
            None => {
                return false;
            },
        };
        let m = match parse_digits(s, pos + 4, 2) {
            Some(v) => v,
            None => {
                return false;
            },
        };
        h < 24 && m < 60
    } else {
        false
    }
}

/// What the textual form denotes: the six fixed-position fields (with `T`
/// or a space between date and time), an optional fraction of up to nine
/// digits, and an optional trailing time zone (`Z` or a signed offset,
/// nothing after it), which is discarded.
pub open spec fn spec_parse_datetime(s: Seq<char>) -> Option<DateTime> {
    if s.len() < 19 {
        None
    } else {
        let year = spec_read_digits(s, 0, 4);
        let month = spec_read_digits(s, 5, 2);
        let day = spec_read_digits(s, 8, 2);
        let hour = spec_read_digits(s, 11, 2);
        let minute = spec_read_digits(s, 14, 2);
        let second = spec_read_digits(s, 17, 2);
        if year is None || s[4] != '-' || month is None || s[7] != '-' || day is None || (s[10]
            != 'T' && s[10] != ' ') || hour is None || s[13] != ':' || minute is None || s[16]
            != ':' || second is None {
            None
        } else if !(year->0 <= 9999 && 1 <= month->0 <= 12 && 1 <= day->0 <= 31 && hour->0 < 24
            && minute->0 < 60 && second->0 < 60) {
            None
        } else {
            let base = DateTime {
                year: year->0 as u16,
                month: month->0 as u8,
                day: day->0 as u8,
                hour: hour->0 as u8,
                minute: minute->0 as u8,
                second: second->0 as u8,
                nanosecond: 0,
            };
            if s.len() > 19 && s[19] == '.' {
                let f = spec_fraction(s, 20, 9, 100000000);
                if f.1 == 20 || !spec_timezone_ok(s, f.1) {
                    None
                } else {
                    Some(DateTime { nanosecond: f.0 as u32, ..base })
                }
            } else {
                if !spec_timezone_ok(s, 19) {
                    None
                } else {
                    Some(base)
                }
            }
        }
    }
}

/// Parses the textual form: date and time of day, an optional fraction of up
/// to nine digits, and an optional trailing time zone (`Z`, or an offset such
/// as `+01:00` or `+0100`, ending the text), which is discarded. Returns
/// `None` on anything else, and only ever a value within the calendar ranges.
pub fn parse_datetime(s: &str) -> (r: Option<DateTime>)
    ensures
        r == spec_parse_datetime(s@),
        r matches Some(dt) ==> dt.wf(),
{
    let cs = str_chars(s);
    if cs.len() < 19 {
        return None;
    }
    let year = match parse_digits(&cs, 0, 4) {
        Some(v) => v,
        None => {
            return None;
        },
    };
    if cs[4] != '-' {
        return None;
    }
    let month = match parse_digits(&cs, 5, 2) {
        Some(v) => v,
        None => {
            return None;
        },
    };
    if cs[7] != '-' {
        return None;
    }
    let day = match parse_digits(&cs, 8, 2) {
        Some(v) => v,
        None => {
            return None;
        },
    };
    if cs[10] != 'T' && cs[10] != ' ' {
        return None;
    }
    let hour = match parse_digits(&cs, 11, 2) {
        Some(v) => v,
        None => {
            return None;
        },
    };
    if cs[13] != ':' {
        return None;
    }
    let minute = match parse_digits(&cs, 14, 2) {
        Some(v) => v,
        None => {
            return None;
        },
    };
    if cs[16] != ':' {
        return None;
    }
    let second = match parse_digits(&cs, 17, 2) {
        Some(v) => v,
        None => {
            return None;
        },
    };
    if !(year <= 9999 && 1 <= month && month <= 12 && 1 <= day && day <= 31 && hour < 24 && minute
        < 60 && second < 60) {
        return None;
    }
    let mut pos: usize = 19;
    let mut nanos: u64 = 0;
    if pos < cs.len() && cs[pos] == '.' {
        pos = pos + 1;
        let ghost total = spec_fraction(cs@, 20, 9, 100000000);
        proof {
            lemma_fraction_bound(cs@, 20, 9, 100000000);
        }
        let mut digits: usize = 0;
        let mut scale: u64 = 100000000;
        let mut stopped = false;
        while pos < cs.len() && digits < 9 && !stopped
            invariant
                pos == 20 + digits,
                20 <= pos <= cs@.len(),
                digits <= 9,
                total == spec_fraction(cs@, 20, 9, 100000000),
                total.0 < 1000000000,
                spec_fraction(cs@, pos as int, 9 - digits, scale as int) == (
                    total.0 - nanos,
                    total.1,
                ),
                nanos <= total.0,
                stopped ==> pos < cs@.len() && spec_digit_val(cs@[pos as int]) is None,
            decreases cs@.len() - pos + (if stopped {
                0int
            } else {
                1int
            }),
        {
            let c = cs[pos];
            if c < '0' || c > '9' {
                proof {
                    assert(spec_digit_val(cs@[pos as int]) is None);
                }
                stopped = true;
            } else {
                let d = ((c as u32) - ('0' as u32)) as u64;
                proof {
                    assert(spec_digit_val(cs@[pos as int]) == Some(d as int));
                    lemma_fraction_bound(cs@, pos as int + 1, 9 - digits - 1, scale as int / 10);
                }
                nanos = nanos + d * scale;
                scale = scale / 10;
                pos = pos + 1;
                digits = digits + 1;
            }
        }
        proof {
            assert(spec_fraction(cs@, pos as int, 9 - digits, scale as int).0 == 0);
            assert(nanos == total.0 && pos == total.1);
        }
        if digits == 0 {
            return None;
        }
    }
    // whatever follows must be a time zone suffix, ending the text
    if !timezone_ok(&cs, pos) {
        return None;
    }
    Some(
        DateTime {
            year: year as u16,
            month: month as u8,
            day: day as u8,
            hour: hour as u8,
            minute: minute as u8,
            second: second as u8,
            nanosecond: nanos as u32,
        },
    )
}

} // verus!
