//! Dates written as `DD.MM.YYYY`, and the booking form that checks them.

use vstd::prelude::*;
use crate::text::{push_range, push_str};

verus! {

/// An ASCII decimal digit.
pub open spec fn is_digit(c: char) -> bool {
    '0' <= c && c <= '9'
}

/// Every codepoint of `s` is an ASCII decimal digit.
pub open spec fn all_digits(s: Seq<char>) -> bool {
    forall|i: int| 0 <= i < s.len() ==> is_digit(#[trigger] s[i])
}

/// The number that a string of decimal digits writes.
pub open spec fn decimal(s: Seq<char>) -> int
    decreases s.len(),
{
    if s.len() == 0 {
        0
    } else {
        decimal(s.drop_last()) * 10 + (s.last() as int - '0' as int)
    }
}

/// The 16-bit number that `s` writes: decimal digits, at least one, with
/// an optional `+` in front, and a value of at most 65535.
pub open spec fn number(s: Seq<char>) -> Option<int> {
    let digits = if s.len() > 0 && s[0] == '+' {
        s.skip(1)
    } else {
        s
    };
    if digits.len() > 0 && all_digits(digits) && decimal(digits) <= 0xFFFF {
        Some(decimal(digits))
    } else {
        None
    }
}

/// The positions of the dots in `s`, in order.
pub open spec fn dot_positions(s: Seq<char>) -> Seq<int>
    decreases s.len(),
{
    if s.len() == 0 {
        Seq::empty()
    } else if s.last() == '.' {
        dot_positions(s.drop_last()).push(s.len() - 1)
    } else {
        dot_positions(s.drop_last())
    }
}

/// The number of days of a month of a year without a leap day, or 0 when
/// there is no such month.
pub open spec fn days_in_month(month: int) -> int {
    if month == 1 || month == 3 || month == 5 || month == 7 || month == 8 || month == 10 || month
        == 12 {
        31
    } else if month == 4 || month == 6 || month == 9 || month == 11 {
        30
    } else if month == 2 {
        28
    } else {
        0
    }
}

/// A day, a month and a year that name a date from 2025 to 9999. February
/// always has 28 days.
pub open spec fn is_date(day: Option<int>, month: Option<int>, year: Option<int>) -> bool {
    match (day, month, year) {
        (Some(d), Some(m), Some(y)) => 2025 <= y <= 9999 && 1 <= m <= 12 && 1 <= d
            <= days_in_month(m),
        _ => false,
    }
}

/// `s` is a date: exactly three parts between dots, each a 16-bit number,
/// which name a day, a month and a year in this order.
pub open spec fn is_date_text(s: Seq<char>) -> bool {
    let dots = dot_positions(s);
    dots.len() == 2 && is_date(
        number(s.subrange(0, dots[0])),
        number(s.subrange(dots[0] + 1, dots[1])),
        number(s.subrange(dots[1] + 1, s.len() as int)),
    )
}

/// A dot stands at each listed position, and the positions lie inside `s`
/// in ascending order.
proof fn lemma_dot_positions_inside(s: Seq<char>)
    ensures
        forall|k: int|
            0 <= k < dot_positions(s).len() ==> 0 <= #[trigger] dot_positions(s)[k] < s.len(),
        forall|j: int, k: int|
            0 <= j < k < dot_positions(s).len() ==> dot_positions(s)[j] < dot_positions(s)[k],
    decreases s.len(),
{
    if s.len() > 0 {
        lemma_dot_positions_inside(s.drop_last());
        let before = dot_positions(s.drop_last());
        let all = dot_positions(s);
        assert forall|k: int| 0 <= k < all.len() implies 0 <= #[trigger] all[k] < s.len() by {
            if k < before.len() {
                assert(all[k] == before[k]);
            }
        }
        assert forall|j: int, k: int| 0 <= j < k < all.len() implies all[j] < all[k] by {
            assert(all[j] == before[j]);
            if k < before.len() {
                assert(all[k] == before[k]);
            }
        }
    }
}

/// Reading more digits never makes the number smaller.
proof fn lemma_decimal_grows(s: Seq<char>, k: int)
    requires
        all_digits(s),
        0 <= k <= s.len(),
    ensures
        0 <= decimal(s.take(k)) <= decimal(s),
    decreases s.len() - k,
{
    if k == s.len() {
        assert(s.take(k) =~= s);
        lemma_decimal_nonnegative(s);
    } else {
        lemma_decimal_grows(s, k + 1);
        let longer = s.take(k + 1);
        assert(longer.drop_last() =~= s.take(k));
        assert(is_digit(s[k]));
        assert(longer.last() == s[k]);
        lemma_decimal_nonnegative(s.take(k));
    }
}

proof fn lemma_decimal_nonnegative(s: Seq<char>)
    requires
        all_digits(s),
    ensures
        0 <= decimal(s),
    decreases s.len(),
{
    if s.len() > 0 {
        assert(is_digit(s.last()));
        assert forall|i: int| 0 <= i < s.drop_last().len() implies is_digit(
            #[trigger] s.drop_last()[i],
        ) by {
            assert(s.drop_last()[i] == s[i]);
        }
        lemma_decimal_nonnegative(s.drop_last());
    }
}

/// The 16-bit number that the codepoints `from..to` of `s` write, if they
/// write one.
pub fn parse_number(s: &[char], from: usize, to: usize) -> (value: Option<u16>)
    requires
        from <= to <= s@.len(),
    ensures
        match value {
            Some(v) => number(s@.subrange(from as int, to as int)) == Some(v as int),
            None => number(s@.subrange(from as int, to as int)) is None,
        },
{
    let ghost part = s@.subrange(from as int, to as int);
    let start: usize = if from < to && s[from] == '+' { from + 1 } else { from };
    let ghost digits = s@.subrange(start as int, to as int);
    proof {
        if start == from {
            assert(digits =~= part);
        } else {
            assert(part[0] == '+');
            assert(digits =~= part.skip(1));
        }
    }
    assert(number(part) == (if digits.len() > 0 && all_digits(digits) && decimal(digits)
        <= 0xFFFF {
        Some(decimal(digits))
    } else {
        None::<int>
    }));
    if start == to {
        return None;
    }
    let mut acc: u32 = 0;
    let mut k: usize = start;
    while k < to
        invariant
            start <= k <= to <= s@.len(),
            digits == s@.subrange(start as int, to as int),
            part == s@.subrange(from as int, to as int),
            number(part) == (if digits.len() > 0 && all_digits(digits) && decimal(digits)
                <= 0xFFFF {
                Some(decimal(digits))
            } else {
                None::<int>
            }),
            all_digits(digits.take(k - start)),
            acc == decimal(digits.take(k - start)),
            acc <= 0xFFFF,
        decreases to - k,
    {
        let c: char = s[k];
        if !(c >= '0' && c <= '9') {
            proof {
                assert(digits[k - start] == c);
                assert(!is_digit(digits[k - start]));
            }
            return None;
        }
        let d: u32 = c as u32 - '0' as u32;
        let next: u32 = acc * 10 + d;
        proof {
            let longer = digits.take(k - start + 1);
            assert(longer.drop_last() =~= digits.take(k - start));
            assert(longer.last() == c);
            assert(next == decimal(longer));
            assert forall|i: int| 0 <= i < longer.len() implies is_digit(#[trigger] longer[i]) by {
                if i < k - start {
                    assert(digits.take(k - start)[i] == longer[i]);
                }
            }
        }
        if next > 0xFFFF {
            proof {
                if all_digits(digits) {
                    lemma_decimal_grows(digits, k - start + 1);
                }
            }
            return None;
        }
        acc = next;
        k = k + 1;
    }
    proof {
        assert(digits.take(to - start) =~= digits);
    }
    Some(acc as u16)
}

/// Whether `date` is a date written as day, month and year between dots,
/// from the year 2025 to the year 9999, February having 28 days.
pub fn parse_date(date: &[char]) -> (ok: bool)
    ensures
        ok == is_date_text(date@),
{
    let n: usize = date.len();
    let mut first: usize = 0;
    let mut second: usize = 0;
    let mut count: usize = 0;
    let mut k: usize = 0;
    while k < n
        invariant
            n == date@.len(),
            0 <= k <= n,
            count <= k,
            count == dot_positions(date@.take(k as int)).len(),
            count >= 1 ==> first == dot_positions(date@.take(k as int))[0],
            count >= 2 ==> second == dot_positions(date@.take(k as int))[1],
        decreases n - k,
    {
        proof {
            assert(date@.take(k + 1).drop_last() =~= date@.take(k as int));
        }
        if date[k] == '.' {
            if count == 0 {
                first = k;
            } else if count == 1 {
                second = k;
            }
            count = count + 1;
        }
        k = k + 1;
    }
    proof {
        assert(date@.take(n as int) =~= date@);
        lemma_dot_positions_inside(date@);
    }
    if count != 2 {
        return false;
    }
    let day: Option<u16> = parse_number(date, 0, first);
    let month: Option<u16> = parse_number(date, first + 1, second);
    let year: Option<u16> = parse_number(date, second + 1, n);
    match (day, month, year) {
        (Some(d), Some(m), Some(y)) => {
            if y < 2025 || y > 9999 {
                return false;
            }
            if m == 0 || m > 12 {
                return false;
            }
            if d == 0 {
                return false;
            }
            let max_day: u16 = if m == 2 {
                28
            } else if m == 4 || m == 6 || m == 9 || m == 11 {
                30
            } else {
                31
            };
            d <= max_day
        },
        _ => false,
    }
}

/// The two kinds of booking.
#[derive(Clone, Copy, Debug, PartialEq, Eq, Structural)]
pub enum FlightType {
    OneWayFlight,
    ReturnFlight,
}

/// What the booking form shows for the current entries.
#[derive(Clone, Copy, Debug, PartialEq, Eq, Structural)]
pub struct BookingForm {
    /// The departure entry is empty or a date.
    pub start_ok: bool,
    /// The return entry is empty or a date.
    pub return_ok: bool,
    /// The return entry takes no input.
    pub return_disabled: bool,
    /// The booking button takes no click.
    pub book_disabled: bool,
}

/// An entry that is empty or a date.
pub open spec fn entry_ok(entry: Seq<char>) -> bool {
    entry.len() == 0 || is_date_text(entry)
}

/// Derives the state of the booking form from the kind of flight and the
/// two date entries. The return entry is open only for a return flight;
/// booking needs a departure date and, for a return flight, a return date.
pub fn booking_form(flight_type: FlightType, start: &[char], back: &[char]) -> (form: BookingForm)
    ensures
        form.start_ok == entry_ok(start@),
        form.return_ok == entry_ok(back@),
        form.return_disabled == (flight_type == FlightType::OneWayFlight),
        form.book_disabled == (start@.len() == 0 || !is_date_text(start@) || (flight_type
            == FlightType::ReturnFlight && !is_date_text(back@))),
{
    let start_ok: bool = start.len() == 0 || parse_date(start);
    let back_is_date: bool = parse_date(back);
    let return_ok: bool = back.len() == 0 || back_is_date;
    let is_return: bool = match flight_type {
        FlightType::OneWayFlight => false,
        FlightType::ReturnFlight => true,
    };
    BookingForm {
        start_ok,
        return_ok,
        return_disabled: !is_return,
        book_disabled: start.len() == 0 || (is_return && !back_is_date) || !start_ok,
    }
}

/// What the booking confirmation says.
pub open spec fn booking_text(flight_type: FlightType, start: Seq<char>, back: Seq<char>) -> Seq<
    char,
> {
    match flight_type {
        FlightType::OneWayFlight => "You have booked a one-way flight on "@ + start + "."@,
        FlightType::ReturnFlight => "You have booked a return flight on "@ + start
            + ", and will return on "@ + back,
    }
}

/// The confirmation of a booking: the kind of flight and its date or dates,
/// as they were entered.
pub fn booking_message(flight_type: FlightType, start: &[char], back: &[char]) -> (message: Vec<
    char,
>)
    ensures
        message@ == booking_text(flight_type, start@, back@),
{
    let mut message: Vec<char> = Vec::new();
    match flight_type {
        FlightType::OneWayFlight => {
            push_str(&mut message, "You have booked a one-way flight on ");
            push_range(&mut message, start, 0, start.len());
            push_str(&mut message, ".");
            assert(message@ =~= booking_text(flight_type, start@, back@));
        },
        FlightType::ReturnFlight => {
            push_str(&mut message, "You have booked a return flight on ");
            push_range(&mut message, start, 0, start.len());
            push_str(&mut message, ", and will return on ");
            push_range(&mut message, back, 0, back.len());
            assert(message@ =~= booking_text(flight_type, start@, back@));
        },
    }
    message
}

} // verus!
