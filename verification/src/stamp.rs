//! Wall-clock timestamps at second resolution, rendered in the
//! `YYYY-MM-DD_HH-MM-SS` form that backup artifact names carry.

use vstd::prelude::*;

verus! {

/// A decimal digit as a character.
pub open spec fn digit_char(d: int) -> char
    recommends
        0 <= d <= 9,
{
    if d == 0 {
        '0'
    } else if d == 1 {
        '1'
    } else if d == 2 {
        '2'
    } else if d == 3 {
        '3'
    } else if d == 4 {
        '4'
    } else if d == 5 {
        '5'
    } else if d == 6 {
        '6'
    } else if d == 7 {
        '7'
    } else if d == 8 {
        '8'
    } else {
        '9'
    }
}

pub open spec fn is_digit_char(c: char) -> bool {
    48 <= c as u32 && c as u32 <= 57
}

/// A number below 100 written with exactly two decimal digits.
pub open spec fn two_digits(n: int) -> Seq<char> {
    seq![digit_char(n / 10), digit_char(n % 10)]
}

/// A number below 10000 written with exactly four decimal digits.
pub open spec fn four_digits(n: int) -> Seq<char> {
    seq![
        digit_char(n / 1000 % 10),
        digit_char(n / 100 % 10),
        digit_char(n / 10 % 10),
        digit_char(n % 10),
    ]
}

/// A local wall-clock time, kept as plain calendar fields.
///
/// The library never reads the clock itself; values of this type come either
/// from the clock module or straight from a caller.
#[derive(Clone, Copy, Debug, PartialEq, Eq, Structural)]
pub struct Timestamp {
    pub year: u16,
    pub month: u8,
    pub day: u8,
    pub hour: u8,
    pub minute: u8,
    pub second: u8,
}

impl Timestamp {
    /// Field ranges under which the timestamp renders to a well-formed
    /// 19-character stamp: four-digit year, calendar month and day, and a
    /// time of day at second resolution.
    pub open spec fn wf(self) -> bool {
        &&& self.year <= 9999
        &&& 1 <= self.month <= 12
        &&& 1 <= self.day <= 31
        &&& self.hour <= 23
        &&& self.minute <= 59
        &&& self.second <= 59
    }

    /// The rendered form `YYYY-MM-DD_HH-MM-SS`.
    pub open spec fn stamp_seq(self) -> Seq<char> {
        four_digits(self.year as int) + seq!['-'] + two_digits(self.month as int) + seq!['-']
            + two_digits(self.day as int) + seq!['_'] + two_digits(self.hour as int) + seq!['-']
            + two_digits(self.minute as int) + seq!['-'] + two_digits(self.second as int)
    }

    /// Builds a timestamp from raw calendar fields, accepting exactly the
    /// well-formed ranges.
    pub fn new(year: u16, month: u8, day: u8, hour: u8, minute: u8, second: u8) -> (r: Option<
        Timestamp,
    >)
        ensures
            r matches Some(ts) ==> ts.wf() && ts == (Timestamp {
                year,
                month,
                day,
                hour,
                minute,
                second,
            }),
            r is Some <==> (Timestamp { year, month, day, hour, minute, second }).wf(),
    {
        if year <= 9999 && 1 <= month && month <= 12 && 1 <= day && day <= 31 && hour <= 23
            && minute <= 59 && second <= 59 {
            Some(Timestamp { year, month, day, hour, minute, second })
        } else {
            None
        }
    }

    /// Renders the timestamp as `YYYY-MM-DD_HH-MM-SS`.
    pub fn render(&self) -> (r: String)
        requires
            self.wf(),
        ensures
            r@ == self.stamp_seq(),
    {
        let mut out = String::new();
        push_four_digits(&mut out, self.year);
        push_dash(&mut out);
        push_two_digits(&mut out, self.month);
        push_dash(&mut out);
        push_two_digits(&mut out, self.day);
        push_underscore(&mut out);
        push_two_digits(&mut out, self.hour);
        push_dash(&mut out);
        push_two_digits(&mut out, self.minute);
        push_dash(&mut out);
        push_two_digits(&mut out, self.second);
        proof {
            assert(out@ =~= self.stamp_seq());
        }
        out
    }
}

/// The single decimal digit `d` as a string slice.
fn digit_str(d: u8) -> (r: &'static str)
    requires
        d <= 9,
    ensures
        r@ =~= seq![digit_char(d as int)],
{
    proof {
        reveal_strlit("0");
        reveal_strlit("1");
        reveal_strlit("2");
        reveal_strlit("3");
        reveal_strlit("4");
        reveal_strlit("5");
        reveal_strlit("6");
        reveal_strlit("7");
        reveal_strlit("8");
        reveal_strlit("9");
    }
    if d == 0 {
        "0"
    } else if d == 1 {
        "1"
    } else if d == 2 {
        "2"
    } else if d == 3 {
        "3"
    } else if d == 4 {
        "4"
    } else if d == 5 {
        "5"
    } else if d == 6 {
        "6"
    } else if d == 7 {
        "7"
    } else if d == 8 {
        "8"
    } else {
        "9"
    }
}

fn push_dash(out: &mut String)
    ensures
        final (out)@ == old(out)@ + seq!['-'],
{
    out.append("-");
    proof {
        reveal_strlit("-");
        assert(final (out)@ =~= old(out)@ + seq!['-']);
    }
}

fn push_underscore(out: &mut String)
    ensures
        final (out)@ == old(out)@ + seq!['_'],
{
    out.append("_");
    proof {
        reveal_strlit("_");
        assert(final (out)@ =~= old(out)@ + seq!['_']);
    }
}

fn push_two_digits(out: &mut String, n: u8)
    requires
        n <= 99,
    ensures
        final (out)@ == old(out)@ + two_digits(n as int),
{
    out.append(digit_str(n / 10));
    out.append(digit_str(n % 10));
    proof {
        assert(final (out)@ =~= old(out)@ + two_digits(n as int));
    }
}

fn push_four_digits(out: &mut String, n: u16)
    requires
        n <= 9999,
    ensures
        final (out)@ == old(out)@ + four_digits(n as int),
{
    out.append(digit_str((n / 1000) as u8));
    out.append(digit_str((n / 100 % 10) as u8));
    out.append(digit_str((n / 10 % 10) as u8));
    out.append(digit_str((n % 10) as u8));
    proof {
        assert(n as int / 1000 % 10 == n as int / 1000);
        assert(final (out)@ =~= old(out)@ + four_digits(n as int));
    }
}

/// The character class that position `i` of a rendered stamp must carry:
/// dashes and one underscore at the separator positions, digits elsewhere.
pub open spec fn stamp_char_ok(s: Seq<char>, i: int) -> bool {
    if i == 4 || i == 7 || i == 13 || i == 16 {
        s[i] == '-'
    } else if i == 10 {
        s[i] == '_'
    } else {
        is_digit_char(s[i])
    }
}

/// Whether `s` has the shape `YYYY-MM-DD_HH-MM-SS`: 19 characters, with
/// digits and separators in their places.
pub open spec fn is_stamp_seq(s: Seq<char>) -> bool {
    s.len() == 19 && (forall|i: int| 0 <= i < 19 ==> #[trigger] stamp_char_ok(s, i))
}

fn is_digit(c: char) -> (b: bool)
    ensures
        b == is_digit_char(c),
{
    let u = c as u32;
    48 <= u && u <= 57
}

/// Checks that a string has the `YYYY-MM-DD_HH-MM-SS` shape.
pub fn check_stamp(s: &str) -> (b: bool)
    ensures
        b == is_stamp_seq(s@),
{
    let n = s.unicode_len();
    if n != 19 {
        return false;
    }
    let mut i: usize = 0;
    while i < 19
        invariant
            s@.len() == 19,
            i <= 19,
            forall|j: int| 0 <= j < i ==> #[trigger] stamp_char_ok(s@, j),
        decreases 19 - i,
    {
        let c = s.get_char(i);
        let ok: bool = if i == 4 || i == 7 || i == 13 || i == 16 {
            c == '-'
        } else if i == 10 {
            c == '_'
        } else {
            is_digit(c)
        };
        if !ok {
            proof {
                assert(!stamp_char_ok(s@, i as int));
            }
            return false;
        }
        i += 1;
    }
    true
}

/// A well-shaped stamp holds only digits, dashes and one underscore, so a
/// stamp never introduces a path separator into an artifact name.
pub proof fn lemma_stamp_has_no_slash(s: Seq<char>)
    requires
        is_stamp_seq(s),
    ensures
        forall|i: int| 0 <= i < s.len() ==> s[i] != '/',
{
    assert forall|i: int| 0 <= i < s.len() implies s[i] != '/' by {
        assert(stamp_char_ok(s, i));
    }
}

/// Every well-formed timestamp renders to a well-shaped stamp, so a name
/// composed from it parses back.
pub proof fn lemma_stamp_seq_valid(ts: Timestamp)
    requires
        ts.wf(),
    ensures
        is_stamp_seq(ts.stamp_seq()),
{
    let s = ts.stamp_seq();
    let y = ts.year as int;
    let mo = ts.month as int;
    let d = ts.day as int;
    let h = ts.hour as int;
    let mi = ts.minute as int;
    let sec = ts.second as int;
    assert(s =~= seq![
        digit_char(y / 1000 % 10),
        digit_char(y / 100 % 10),
        digit_char(y / 10 % 10),
        digit_char(y % 10),
        '-',
        digit_char(mo / 10),
        digit_char(mo % 10),
        '-',
        digit_char(d / 10),
        digit_char(d % 10),
        '_',
        digit_char(h / 10),
        digit_char(h % 10),
        '-',
        digit_char(mi / 10),
        digit_char(mi % 10),
        '-',
        digit_char(sec / 10),
        digit_char(sec % 10),
    ]);
    assert forall|i: int| 0 <= i < 19 implies #[trigger] stamp_char_ok(s, i) by {
        assert(forall|d2: int| 0 <= d2 <= 9 ==> is_digit_char(#[trigger] digit_char(d2)));
    }
}

} // verus!
