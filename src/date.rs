//! Calendar dates as the APOD service writes them: `YYYY-MM-DD`.
use vstd::prelude::*;

verus! {

pub open spec fn is_leap_year(y: int) -> bool {
    (y % 4 == 0 && y % 100 != 0) || y % 400 == 0
}

pub open spec fn days_in_month(y: int, m: int) -> int {
    if m == 2 {
        if is_leap_year(y) {
            29
        } else {
            28
        }
    } else if m == 4 || m == 6 || m == 9 || m == 11 {
        30
    } else {
        31
    }
}

/// A day of the proleptic Gregorian calendar with a four-digit year.
pub open spec fn is_valid_ymd(y: int, m: int, d: int) -> bool {
    0 <= y <= 9999 && 1 <= m <= 12 && 1 <= d <= days_in_month(y, m)
}

/// A timezone-naive calendar date.
#[derive(Clone, Copy, Debug, PartialEq, Eq, Structural, Hash)]
pub struct ApodDate {
    pub year: i32,
    pub month: u32,
    pub day: u32,
}

pub open spec fn is_digit(c: char) -> bool {
    '0' <= c <= '9'
}

pub open spec fn digit_value(c: char) -> int {
    c as int - '0' as int
}

pub open spec fn digit_char(n: int) -> char {
    (n + '0' as int) as char
}

/// The characters `s[from..from + 4]` read as a decimal number.
pub open spec fn four_digits(s: Seq<char>, from: int) -> int {
    1000 * digit_value(s[from]) + 100 * digit_value(s[from + 1]) + 10 * digit_value(s[from + 2])
        + digit_value(s[from + 3])
}

pub open spec fn two_digits(s: Seq<char>, from: int) -> int {
    10 * digit_value(s[from]) + digit_value(s[from + 1])
}

/// `s` has the shape `DDDD-DD-DD`.
pub open spec fn has_iso_shape(s: Seq<char>) -> bool {
    &&& s.len() == 10
    &&& s[4] == '-'
    &&& s[7] == '-'
    &&& forall|i: int| 0 <= i < 10 && i != 4 && i != 7 ==> is_digit(#[trigger] s[i])
}

/// `s` is the `YYYY-MM-DD` rendering of a valid date.
pub open spec fn is_iso_date(s: Seq<char>) -> bool {
    has_iso_shape(s) && is_valid_ymd(four_digits(s, 0), two_digits(s, 5), two_digits(s, 8))
}

/// The `YYYY-MM-DD` rendering of a date, zero-padded.
pub open spec fn iso_text(y: int, m: int, d: int) -> Seq<char> {
    seq![
        digit_char(y / 1000),
        digit_char((y / 100) % 10),
        digit_char((y / 10) % 10),
        digit_char(y % 10),
        '-',
        digit_char(m / 10),
        digit_char(m % 10),
        '-',
        digit_char(d / 10),
        digit_char(d % 10),
    ]
}

/// Why a string is not a date.
#[derive(Clone, Copy, Debug, PartialEq, Eq, Structural)]
pub enum DateFormatError {
    /// The text is not of the form `YYYY-MM-DD`.
    Shape,
    /// The text has the right form but names no calendar day.
    NoSuchDay,
}

impl ApodDate {
    pub open spec fn wf(self) -> bool {
        is_valid_ymd(self.year as int, self.month as int, self.day as int)
    }

    /// Chronological order.
    pub open spec fn spec_le(self, other: ApodDate) -> bool {
        self.year < other.year || (self.year == other.year && (self.month < other.month || (
        self.month == other.month && self.day <= other.day)))
    }

    pub open spec fn iso(self) -> Seq<char> {
        iso_text(self.year as int, self.month as int, self.day as int)
    }

    /// The date of the given year, month and day, if there is one.
    pub fn from_ymd_opt(year: i32, month: u32, day: u32) -> (r: Option<ApodDate>)
        ensures
            r is Some <==> is_valid_ymd(year as int, month as int, day as int),
            r matches Some(d) ==> d.year == year && d.month == month && d.day == day,
    {
        if year < 0 || year > 9999 || month < 1 || month > 12 || day < 1 {
            return None;
        }
        let leap = (year % 4 == 0 && year % 100 != 0) || year % 400 == 0;
        let last: u32 = if month == 2 {
            if leap {
                29
            } else {
                28
            }
        } else if month == 4 || month == 6 || month == 9 || month == 11 {
            30
        } else {
            31
        };
        if day > last {
            None
        } else {
            Some(ApodDate { year, month, day })
        }
    }

    /// Whether `self` is on or before `other`.
    pub fn le(&self, other: &ApodDate) -> (r: bool)
        ensures
            r == self.spec_le(*other),
    {
        self.year < other.year || (self.year == other.year && (self.month < other.month || (
        self.month == other.month && self.day <= other.day)))
    }

    /// Renders the date as `YYYY-MM-DD`.
    pub fn to_iso_string(&self) -> (r: String)
        requires
            self.wf(),
        ensures
            r@ == self.iso(),
    {
        let y = self.year as u32;
        let mut s = String::new();
        push_digit(&mut s, y / 1000);
        push_digit(&mut s, (y / 100) % 10);
        push_digit(&mut s, (y / 10) % 10);
        push_digit(&mut s, y % 10);
        push_dash(&mut s);
        push_digit(&mut s, self.month / 10);
        push_digit(&mut s, self.month % 10);
        push_dash(&mut s);
        push_digit(&mut s, self.day / 10);
        push_digit(&mut s, self.day % 10);
        assert(s@ =~= self.iso());
        s
    }

    /// Reads a date written exactly as `YYYY-MM-DD`.
    pub fn parse_iso(s: &str) -> (r: Result<ApodDate, DateFormatError>)
        ensures
            r matches Ok(d) ==> is_iso_date(s@) && d.wf() && d.year == four_digits(s@, 0)
                && d.month == two_digits(s@, 5) && d.day == two_digits(s@, 8),
            r matches Err(e) ==> !is_iso_date(s@) && (e == DateFormatError::NoSuchDay
                <==> has_iso_shape(s@)),
    {
        if s.unicode_len() != 10 {
            return Err(DateFormatError::Shape);
        }
        let mut vals: Vec<u32> = Vec::new();
        let mut i: usize = 0;
        while i < 10
            invariant
                s@.len() == 10,
                0 <= i <= 10,
                vals@.len() == i,
                forall|k: int| 0 <= k < i && k != 4 && k != 7 ==> is_digit(#[trigger] s@[k])
                    && vals@[k] == digit_value(s@[k]),
                forall|k: int| 0 <= k < i && (k == 4 || k == 7) ==> #[trigger] s@[k] == '-',
            decreases 10 - i,
        {
            let c = s.get_char(i);
            if i == 4 || i == 7 {
                if c != '-' {
                    return Err(DateFormatError::Shape);
                }
                vals.push(0);
            } else {
                if c < '0' || c > '9' {
                    return Err(DateFormatError::Shape);
                }
                vals.push((c as u32) - ('0' as u32));
            }
            i = i + 1;
        }
        assert(has_iso_shape(s@));
        assert(is_digit(s@[0]) && is_digit(s@[1]) && is_digit(s@[2]) && is_digit(s@[3]));
        assert(is_digit(s@[5]) && is_digit(s@[6]) && is_digit(s@[8]) && is_digit(s@[9]));
        let year = vals[0] * 1000 + vals[1] * 100 + vals[2] * 10 + vals[3];
        let month = vals[5] * 10 + vals[6];
        let day = vals[8] * 10 + vals[9];
        match ApodDate::from_ymd_opt(year as i32, month, day) {
            Some(d) => Ok(d),
            None => Err(DateFormatError::NoSuchDay),
        }
    }
}

fn push_dash(s: &mut String)
    ensures
        final(s)@ == old(s)@.push('-'),
{
    proof {
        reveal_strlit("-");
    }
    s.append("-");
}

pub(crate) fn push_digit(s: &mut String, n: u32)
    requires
        n < 10,
    ensures
        final(s)@ == old(s)@.push(digit_char(n as int)),
{
    let t: &str = match n {
        0 => "0",
        1 => "1",
        2 => "2",
        3 => "3",
        4 => "4",
        5 => "5",
        6 => "6",
        7 => "7",
        8 => "8",
        _ => "9",
    };
    proof {
        reveal_strlit("0");
        reveal_strlit("1");
        reveal_strlit("2");
        reveal_strlit("3");
        reveal_strlit("4");
        reveal_strlit("5");
        reveal_strlit("6");
        reveal_strlit("7");
        reveal_strlit("8");
        reveal_strlit("9");
    }
    assert(t@ =~= seq![digit_char(n as int)]);
    s.append(t);
}

/// The decimal digits of `n`, without leading zeros.
pub open spec fn decimal(n: nat) -> Seq<char>
    decreases n,
{
    if n < 10 {
        seq![digit_char(n as int)]
    } else {
        decimal(n / 10).push(digit_char((n % 10) as int))
    }
}

/// Appends the decimal digits of `n`.
pub fn push_decimal(s: &mut String, n: u32)
    ensures
        final(s)@ == old(s)@ + decimal(n as nat),
    decreases n,
{
    if n >= 10 {
        push_decimal(s, n / 10);
    }
    push_digit(s, n % 10);
    proof {
        if n < 10 {
            assert(old(s)@.push(digit_char(n as int)) =~= old(s)@ + decimal(n as nat));
        } else {
            assert((old(s)@ + decimal((n / 10) as nat)).push(digit_char((n % 10) as int)) =~= old(s)@
                + decimal(n as nat));
        }
    }
}

proof fn lemma_digit_char(n: int)
    requires
        0 <= n < 10,
    ensures
        is_digit(digit_char(n)),
        digit_value(digit_char(n)) == n,
{
}

proof fn lemma_four_digit_split(y: int)
    requires
        0 <= y <= 9999,
    ensures
        y == 1000 * (y / 1000) + 100 * ((y / 100) % 10) + 10 * ((y / 10) % 10) + y % 10,
        0 <= y / 1000 < 10,
{
    let t = y / 10;
    let h = y / 100;
    vstd::arithmetic::div_mod::lemma_fundamental_div_mod(y, 10);
    vstd::arithmetic::div_mod::lemma_fundamental_div_mod(t, 10);
    vstd::arithmetic::div_mod::lemma_fundamental_div_mod(h, 10);
    vstd::arithmetic::div_mod::lemma_div_denominator(y, 10, 10);
    vstd::arithmetic::div_mod::lemma_div_denominator(y, 100, 10);
    assert(t / 10 == h);
    assert(h / 10 == y / 1000);
}

/// Rendering a valid date and reading it back gives the same date.
pub proof fn lemma_iso_round_trip(d: ApodDate)
    requires
        d.wf(),
    ensures
        is_iso_date(d.iso()),
        four_digits(d.iso(), 0) == d.year,
        two_digits(d.iso(), 5) == d.month,
        two_digits(d.iso(), 8) == d.day,
{
    let y = d.year as int;
    let m = d.month as int;
    let dd = d.day as int;
    lemma_four_digit_split(y);
    lemma_digit_char(y / 1000);
    lemma_digit_char((y / 100) % 10);
    lemma_digit_char((y / 10) % 10);
    lemma_digit_char(y % 10);
    lemma_digit_char(m / 10);
    lemma_digit_char(m % 10);
    lemma_digit_char(dd / 10);
    lemma_digit_char(dd % 10);
    let s = d.iso();
    assert(s[0] == digit_char(y / 1000));
    assert(s[5] == digit_char(m / 10));
    assert(s[8] == digit_char(dd / 10));
    assert(has_iso_shape(s));
}

} // verus!
