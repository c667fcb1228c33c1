//! A timezone-aware timestamp held as plain calendar fields, and its
//! RFC 3339 rendering, proved character for character.
//!
//! The offset is kept as signed minutes from UTC and is rendered verbatim
//! (`+05:30` stays `+05:30`; zero renders as `+00:00`, never `Z`).

use vstd::prelude::*;
use vstd::string::StringExecFns;

verus! {

/// The mathematical value of a timestamp: calendar fields plus an offset
/// from UTC in minutes.
pub ghost struct TimestampView {
    pub year: int,
    pub month: int,
    pub day: int,
    pub hour: int,
    pub minute: int,
    pub second: int,
    pub offset_minutes: int,
}

/// The field ranges every `Timestamp` satisfies: a four-digit year, calendar
/// month/day bounds, clock bounds, and an offset under a day in magnitude.
pub open spec fn timestamp_wf(t: TimestampView) -> bool {
    &&& 1 <= t.year <= 9999
    &&& 1 <= t.month <= 12
    &&& 1 <= t.day <= 31
    &&& 0 <= t.hour <= 23
    &&& 0 <= t.minute <= 59
    &&& 0 <= t.second <= 59
    &&& -1439 <= t.offset_minutes <= 1439
}

/// The decimal digit character for `d`.
pub open spec fn spec_digit(d: int) -> char {
    if d == 0 {
        '0'
    } else if d == 1 {
        '1'
    } else if d == 2 {
        '2'
    } else if d == 3 {
        '3'
    } else if d == 4 {
        '4'
    } else if d == 5 {
        '5'
    } else if d == 6 {
        '6'
    } else if d == 7 {
        '7'
    } else if d == 8 {
        '8'
    } else {
        '9'
    }
}

/// `n` rendered as exactly two digits, zero padded.
pub open spec fn spec_two_digits(n: int) -> Seq<char> {
    seq![spec_digit(n / 10), spec_digit(n % 10)]
}

/// `n` rendered as exactly four digits, zero padded.
pub open spec fn spec_four_digits(n: int) -> Seq<char> {
    seq![
        spec_digit(n / 1000),
        spec_digit((n / 100) % 10),
        spec_digit((n / 10) % 10),
        spec_digit(n % 10),
    ]
}

/// The offset suffix of an RFC 3339 string: sign, hours, `:`, minutes.
/// A zero offset renders as `+00:00`.
pub open spec fn spec_offset(o: int) -> Seq<char> {
    if o >= 0 {
        seq!['+'] + spec_two_digits(o / 60) + seq![':'] + spec_two_digits(o % 60)
    } else {
        seq!['-'] + spec_two_digits((-o) / 60) + seq![':'] + spec_two_digits((-o) % 60)
    }
}

/// The full RFC 3339 rendering: `YYYY-MM-DDThh:mm:ss` followed by the offset.
pub open spec fn spec_rfc3339(t: TimestampView) -> Seq<char> {
    spec_four_digits(t.year) + seq!['-'] + spec_two_digits(t.month) + seq!['-'] + spec_two_digits(
        t.day,
    ) + seq!['T'] + spec_two_digits(t.hour) + seq![':'] + spec_two_digits(t.minute) + seq![':']
        + spec_two_digits(t.second) + spec_offset(t.offset_minutes)
}

/// A timezone-aware instant: calendar fields with an offset from UTC in
/// minutes, valid by construction.
#[derive(Debug, Clone, Copy)]
pub struct Timestamp {
    year: u16,
    month: u8,
    day: u8,
    hour: u8,
    minute: u8,
    second: u8,
    offset_minutes: i16,
}

impl View for Timestamp {
    type V = TimestampView;

    closed spec fn view(&self) -> TimestampView {
        TimestampView {
            year: self.year as int,
            month: self.month as int,
            day: self.day as int,
            hour: self.hour as int,
            minute: self.minute as int,
            second: self.second as int,
            offset_minutes: self.offset_minutes as int,
        }
    }
}

impl DeepView for Timestamp {
    type V = TimestampView;

    open spec fn deep_view(&self) -> TimestampView {
        self@
    }
}

impl Timestamp {
    /// The invariant every `Timestamp` carries from construction on.
    #[verifier::type_invariant]
    pub closed spec fn inv(&self) -> bool {
        timestamp_wf(self@)
    }

    /// Builds a timestamp from its fields; the caller supplies values in
    /// range (a calling layer that takes dates from elsewhere checks them
    /// first).
    pub fn new(
        year: u16,
        month: u8,
        day: u8,
        hour: u8,
        minute: u8,
        second: u8,
        offset_minutes: i16,
    ) -> (r: Timestamp)
        requires
            1 <= year <= 9999,
            1 <= month <= 12,
            1 <= day <= 31,
            hour <= 23,
            minute <= 59,
            second <= 59,
            -1439 <= offset_minutes <= 1439,
        ensures
            r@ == (TimestampView {
                year: year as int,
                month: month as int,
                day: day as int,
                hour: hour as int,
                minute: minute as int,
                second: second as int,
                offset_minutes: offset_minutes as int,
            }),
            timestamp_wf(r@),
    {
        Timestamp { year, month, day, hour, minute, second, offset_minutes }
    }

    /// The RFC 3339 string for this instant, offset preserved verbatim.
    pub fn rfc3339(&self) -> (r: String)
        ensures
            r@ == spec_rfc3339(self@),
            timestamp_wf(self@),
    {
        proof {
            use_type_invariant(&*self);
        }
        let mut r = four_digit_string(self.year);
        push_str_lit_dash(&mut r);
        let p = two_digit_string(self.month);
        r.append(p.as_str());
        push_str_lit_dash(&mut r);
        let p = two_digit_string(self.day);
        r.append(p.as_str());
        push_str_lit_t(&mut r);
        let p = two_digit_string(self.hour);
        r.append(p.as_str());
        push_str_lit_colon(&mut r);
        let p = two_digit_string(self.minute);
        r.append(p.as_str());
        push_str_lit_colon(&mut r);
        let p = two_digit_string(self.second);
        r.append(p.as_str());
        let p = offset_string(self.offset_minutes);
        r.append(p.as_str());
        proof {
            assert(r@ =~= spec_rfc3339(self@));
        }
        r
    }
}

/// Appends `-`.
fn push_str_lit_dash(out: &mut String)
    ensures
        final(out)@ == old(out)@ + seq!['-'],
{
    proof {
        reveal_strlit("-");
        assert("-"@ =~= seq!['-']);
    }
    out.append("-");
}

/// Appends `:`.
fn push_str_lit_colon(out: &mut String)
    ensures
        final(out)@ == old(out)@ + seq![':'],
{
    proof {
        reveal_strlit(":");
        assert(":"@ =~= seq![':']);
    }
    out.append(":");
}

/// Appends `T`.
fn push_str_lit_t(out: &mut String)
    ensures
        final(out)@ == old(out)@ + seq!['T'],
{
    proof {
        reveal_strlit("T");
        assert("T"@ =~= seq!['T']);
    }
    out.append("T");
}

/// The one-character string for a decimal digit.
fn digit_str(d: u8) -> (r: &'static str)
    requires
        d < 10,
    ensures
        r@ == seq![spec_digit(d as int)],
{
    if d == 0 {
        proof {
            reveal_strlit("0");
            assert("0"@ =~= seq!['0']);
        }
        "0"
    } else if d == 1 {
        proof {
            reveal_strlit("1");
            assert("1"@ =~= seq!['1']);
        }
        "1"
    } else if d == 2 {
        proof {
            reveal_strlit("2");
            assert("2"@ =~= seq!['2']);
        }
        "2"
    } else if d == 3 {
        proof {
            reveal_strlit("3");
            assert("3"@ =~= seq!['3']);
        }
        "3"
    } else if d == 4 {
        proof {
            reveal_strlit("4");
            assert("4"@ =~= seq!['4']);
        }
        "4"
    } else if d == 5 {
        proof {
            reveal_strlit("5");
            assert("5"@ =~= seq!['5']);
        }
        "5"
    } else if d == 6 {
        proof {
            reveal_strlit("6");
            assert("6"@ =~= seq!['6']);
        }
        "6"
    } else if d == 7 {
        proof {
            reveal_strlit("7");
            assert("7"@ =~= seq!['7']);
        }
        "7"
    } else if d == 8 {
        proof {
            reveal_strlit("8");
            assert("8"@ =~= seq!['8']);
        }
        "8"
    } else {
        proof {
            reveal_strlit("9");
            assert("9"@ =~= seq!['9']);
        }
        "9"
    }
}

/// Two zero-padded digits for `n`.
fn two_digit_string(n: u8) -> (r: String)
    requires
        n < 100,
    ensures
        r@ == spec_two_digits(n as int),
{
    let mut r = digit_str(n / 10).to_owned();
    r.append(digit_str(n % 10));
    proof {
        assert(r@ =~= spec_two_digits(n as int));
    }
    r
}

/// Four zero-padded digits for `n`.
fn four_digit_string(n: u16) -> (r: String)
    requires
        n < 10000,
    ensures
        r@ == spec_four_digits(n as int),
{
    let mut r = digit_str((n / 1000) as u8).to_owned();
    r.append(digit_str(((n / 100) % 10) as u8));
    r.append(digit_str(((n / 10) % 10) as u8));
    r.append(digit_str((n % 10) as u8));
    proof {
        assert(r@ =~= spec_four_digits(n as int));
    }
    r
}

/// The sign and zero-padded hours and minutes of an offset.
fn offset_string(o: i16) -> (r: String)
    requires
        -1439 <= o <= 1439,
    ensures
        r@ == spec_offset(o as int),
{
    if o >= 0 {
        proof {
            reveal_strlit("+");
            assert("+"@ =~= seq!['+']);
        }
        let mut r = "+".to_owned();
        let p = two_digit_string((o / 60) as u8);
        r.append(p.as_str());
        push_str_lit_colon(&mut r);
        let p = two_digit_string((o % 60) as u8);
        r.append(p.as_str());
        proof {
            assert(r@ =~= spec_offset(o as int));
        }
        r
    } else {
        let m = -o;
        let mut r = push_neg_sign_string();
        let p = two_digit_string((m / 60) as u8);
        r.append(p.as_str());
        push_str_lit_colon(&mut r);
        let p = two_digit_string((m % 60) as u8);
        r.append(p.as_str());
        proof {
            assert(r@ =~= spec_offset(o as int));
        }
        r
    }
}

/// The string `-` as the sign of a negative offset.
fn push_neg_sign_string() -> (r: String)
    ensures
        r@ == seq!['-'],
{
    proof {
        reveal_strlit("-");
        assert("-"@ =~= seq!['-']);
    }
    "-".to_owned()
}

} // verus!
