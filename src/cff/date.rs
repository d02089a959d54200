//! Calendar dates written `YYYY-MM-DD`.

use vstd::prelude::*;
use crate::node::DecodeError;
use crate::text::{
    all_digits, digits_value, is_digit, signed_padded, write_signed_padded, write_zero_padded,
    zero_padded, decimal, digit_char, digit_value,
};

verus! {

/// A date of the Gregorian calendar.
///
/// Month and day are range-checked when read from text (1 to 12, 1 to 31);
/// the day is not checked against the length of the month.
#[derive(Debug, Clone, Copy, PartialEq, Eq, Hash, Structural)]
pub struct Date {
    /// Year, in the Gregorian calendar
    pub year: i64,
    /// Month, starting from 1
    pub month: u8,
    /// Day of the month, starting from 1
    pub day: u8,
}

/// Whether `s` has the shape `DDDD-DD-DD`, each `D` a decimal digit.
pub open spec fn date_shape(s: Seq<char>) -> bool {
    &&& s.len() == 10
    &&& s[4] == '-'
    &&& s[7] == '-'
    &&& all_digits(s.subrange(0, 4))
    &&& all_digits(s.subrange(5, 7))
    &&& all_digits(s.subrange(8, 10))
}

/// The year written in a text of date shape.
pub open spec fn year_of(s: Seq<char>) -> int {
    digits_value(s.subrange(0, 4))
}

/// The month written in a text of date shape.
pub open spec fn month_of(s: Seq<char>) -> int {
    digits_value(s.subrange(5, 7))
}

/// The day written in a text of date shape.
pub open spec fn day_of(s: Seq<char>) -> int {
    digits_value(s.subrange(8, 10))
}

/// Whether `s` is a date of the right shape whose month and day are in range.
pub open spec fn valid_date_text(s: Seq<char>) -> bool {
    date_shape(s) && 1 <= month_of(s) <= 12 && 1 <= day_of(s) <= 31
}

/// The text of a date: the year zero-padded to four characters, month and day
/// to two, joined by dashes.
#[verifier::opaque]
pub open spec fn date_text(d: Date) -> Seq<char> {
    signed_padded(d.year as int, 4) + seq!['-'] + zero_padded(d.month as nat, 2) + seq!['-']
        + zero_padded(d.day as nat, 2)
}

/// Whether `err` is the error that reading `s` as a date gives: a shape
/// mismatch for a text not of date shape, else a range violation of the
/// month, else of the day.
pub open spec fn date_error(s: Seq<char>, err: DecodeError) -> bool {
    if !date_shape(s) {
        err matches DecodeError::ShapeMismatch { field } && field@ == "date"@
    } else if !(1 <= month_of(s) <= 12) {
        err matches DecodeError::RangeViolation { field, value } && field@ == "month"@ && value
            == month_of(s)
    } else {
        err matches DecodeError::RangeViolation { field, value } && field@ == "day"@ && value
            == day_of(s)
    }
}

/// What reading `s` as a date gives.
#[verifier::opaque]
pub open spec fn date_read(s: Seq<char>, r: Result<Date, DecodeError>) -> bool {
    if !date_shape(s) {
        r matches Err(DecodeError::ShapeMismatch { field }) && field@ == "date"@
    } else if !(1 <= month_of(s) <= 12) {
        r matches Err(DecodeError::RangeViolation { field, value }) && field@ == "month"@ && value == month_of(s)
    } else if !(1 <= day_of(s) <= 31) {
        r matches Err(DecodeError::RangeViolation { field, value }) && field@ == "day"@
            && value == day_of(s)
    } else {
        r == Ok::<Date, DecodeError>(
            Date { year: year_of(s) as i64, month: month_of(s) as u8, day: day_of(s) as u8 },
        )
    }
}

/// Reads a two-digit or four-digit decimal field of a date text.
fn read_field(s: &str, from: usize, to: usize) -> (r: Option<u64>)
    requires
        from <= to <= s@.len(),
        to - from <= 4,
    ensures
        r is Some <==> all_digits(s@.subrange(from as int, to as int)),
        r matches Some(v) ==> v as int == digits_value(s@.subrange(from as int, to as int)),
{
    let part = s.substring_char(from, to);
    proof {
        if all_digits(part@) {
            lemma_digits_bound(part@);
        }
    }
    crate::text::parse_digits(part)
}

/// A run of at most four digits is worth less than ten thousand.
pub proof fn lemma_digits_bound(s: Seq<char>)
    requires
        forall|i: int| 0 <= i < s.len() ==> is_digit(#[trigger] s[i]),
        s.len() <= 4,
    ensures
        0 <= digits_value(s) < (if s.len() <= 2 {
            if s.len() == 0 {
                1int
            } else if s.len() == 1 {
                10int
            } else {
                100int
            }
        } else if s.len() == 3 {
            1000int
        } else {
            10000int
        }),
    decreases s.len(),
{
    if s.len() > 0 {
        lemma_digits_bound(s.drop_last());
        assert(is_digit(s[s.len() - 1]));
    }
}

impl Date {
    /// Reads a date written `YYYY-MM-DD`. A text of another shape is a shape
    /// mismatch; a month outside 1 to 12 or a day outside 1 to 31 is a range
    /// violation.
    pub fn from_str(s: &str) -> (r: Result<Date, DecodeError>)
        ensures
            date_read(s@, r),
            r matches Err(err) ==> date_error(s@, err),
    {
        proof {
            reveal(date_read);
        }
        let n = s.unicode_len();
        if n != 10 || s.get_char(4) != '-' || s.get_char(7) != '-' {
            return Err(DecodeError::ShapeMismatch { field: "date".to_owned() });
        }
        let year = read_field(s, 0, 4);
        let month = read_field(s, 5, 7);
        let day = read_field(s, 8, 10);
        match (year, month, day) {
            (Some(y), Some(m), Some(d)) => {
                proof {
                    lemma_digits_bound(s@.subrange(0, 4));
                    lemma_digits_bound(s@.subrange(5, 7));
                    lemma_digits_bound(s@.subrange(8, 10));
                }
                if m == 0 || m > 12 {
                    Err(DecodeError::RangeViolation { field: "month".to_owned(), value: m as i64 })
                } else if d == 0 || d > 31 {
                    Err(DecodeError::RangeViolation { field: "day".to_owned(), value: d as i64 })
                } else {
                    Ok(Date { year: y as i64, month: m as u8, day: d as u8 })
                }
            },
            _ => Err(DecodeError::ShapeMismatch { field: "date".to_owned() }),
        }
    }

    /// Writes the date as `YYYY-MM-DD`, zero-padded to those widths.
    pub fn to_text(&self) -> (r: String)
        ensures
            r@ == date_text(*self),
    {
        proof {
            reveal(date_text);
        }
        let mut out = String::new();
        write_signed_padded(&mut out, self.year, 4);
        proof {
            reveal_strlit("-");
        }
        out.append("-");
        write_zero_padded(&mut out, self.month as u64, 2);
        out.append("-");
        write_zero_padded(&mut out, self.day as u64, 2);
        assert(out@ =~= date_text(*self));
        out
    }
}

/// A digit run whose value is zero is all zeros.
proof fn lemma_zero_digits(t: Seq<char>)
    requires
        forall|i: int| 0 <= i < t.len() ==> is_digit(#[trigger] t[i]),
        digits_value(t) == 0,
    ensures
        t =~= Seq::new(t.len(), |i: int| '0'),
    decreases t.len(),
{
    if t.len() > 0 {
        assert(is_digit(t[t.len() - 1]));
        lemma_digits_value_nonneg(t.drop_last());
        lemma_zero_digits(t.drop_last());
        assert(t[t.len() - 1] == '0');
        assert forall|i: int| 0 <= i < t.len() - 1 implies t[i] == '0' by {
            assert(t.drop_last()[i] == '0');
        }
    }
}

proof fn lemma_digits_value_nonneg(t: Seq<char>)
    requires
        forall|i: int| 0 <= i < t.len() ==> is_digit(#[trigger] t[i]),
    ensures
        digits_value(t) >= 0,
    decreases t.len(),
{
    if t.len() > 0 {
        lemma_digits_value_nonneg(t.drop_last());
        assert(is_digit(t[t.len() - 1]));
    }
}

/// Padding the value of a digit run to the run's length gives the run back.
pub proof fn lemma_padded_digits(t: Seq<char>)
    requires
        forall|i: int| 0 <= i < t.len() ==> is_digit(#[trigger] t[i]),
        t.len() > 0,
    ensures
        zero_padded(digits_value(t) as nat, t.len()) == t,
    decreases t.len(),
{
    let w = t.len();
    let t1 = t.drop_last();
    let d = t.last();
    assert(is_digit(t[w - 1]));
    lemma_digits_value_nonneg(t1);
    let v1 = digits_value(t1);
    let n = digits_value(t);
    assert(n == v1 * 10 + digit_value(d));
    assert(digit_char(digit_value(d) as nat) == d);
    if v1 == 0 {
        lemma_zero_digits(t1);
        assert(n < 10);
        assert(decimal(n as nat) == seq![d]);
        assert(t =~= Seq::new((w - 1) as nat, |i: int| '0') + seq![d]);
    } else {
        lemma_padded_digits(t1);
        assert(n >= 10);
        assert((n as nat) / 10 == v1 as nat);
        assert((n as nat) % 10 == digit_value(d) as nat);
        assert(decimal(n as nat) == decimal(v1 as nat).push(d));
        let d1 = decimal(v1 as nat);
        assert(t =~= t1.push(d));
        if d1.len() < w - 1 {
            assert(t1 == Seq::new((w - 1 - d1.len()) as nat, |i: int| '0') + d1);
            assert(t =~= Seq::new((w - d1.len() - 1) as nat, |i: int| '0') + d1.push(d));
        } else {
            assert(t1 == d1);
            assert(t =~= d1.push(d));
        }
    }
}

/// A valid date text reads as a date whose text is the same.
pub proof fn lemma_date_text_round_trip(s: Seq<char>, d: Date)
    requires
        valid_date_text(s),
        date_read(s, Ok(d)),
    ensures
        date_text(d) == s,
{
    reveal(date_read);
    reveal(date_text);
    lemma_padded_digits(s.subrange(0, 4));
    lemma_padded_digits(s.subrange(5, 7));
    lemma_padded_digits(s.subrange(8, 10));
    lemma_digits_value_nonneg(s.subrange(0, 4));
    lemma_digits_bound(s.subrange(0, 4));
    assert(d.year as int == year_of(s));
    assert(d.month as int == month_of(s));
    assert(d.day as int == day_of(s));
    assert(signed_padded(d.year as int, 4) == s.subrange(0, 4));
    assert(zero_padded(d.month as nat, 2) == s.subrange(5, 7));
    assert(zero_padded(d.day as nat, 2) == s.subrange(8, 10));
    assert(date_text(d) =~= s);
}

} // verus!
