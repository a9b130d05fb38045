//! The clock labels: 12-hour time and the abbreviated Spanish weekday with
//! the date.
use vstd::prelude::*;

use crate::data::TimeInfo;
use crate::text::{decimal, push_decimal, push_str, push_two_digits, two_digits};

verus! {

/// The hour on a 12-hour dial: 12 for midnight and noon.
pub open spec fn hour12(hour: nat) -> nat {
    if hour % 12 == 0 {
        12
    } else {
        hour % 12
    }
}

/// "AM" before noon, "PM" from noon on.
pub open spec fn meridiem(hour: nat) -> Seq<char> {
    if hour < 12 {
        "AM"@
    } else {
        "PM"@
    }
}

/// The time as `%-I:%M %p` writes it: unpadded 12-hour hour, two-digit
/// minute, and AM or PM ("9:05 PM").
pub open spec fn clock_text(hour: nat, minute: nat) -> Seq<char> {
    decimal(hour12(hour)) + seq![':'] + two_digits(minute) + seq![' '] + meridiem(hour)
}

/// Abbreviated Spanish weekday names, counted from Sunday.
pub open spec fn weekday_name(days_from_sunday: nat) -> Seq<char> {
    if days_from_sunday == 0 {
        "Dom"@
    } else if days_from_sunday == 1 {
        "Lun"@
    } else if days_from_sunday == 2 {
        "Mar"@
    } else if days_from_sunday == 3 {
        "Mié"@
    } else if days_from_sunday == 4 {
        "Jue"@
    } else if days_from_sunday == 5 {
        "Vie"@
    } else {
        "Sáb"@
    }
}

/// The weekday followed by two two-digit numbers: "Lun 03/07".
pub open spec fn date_text(days_from_sunday: nat, first: nat, second: nat) -> Seq<char> {
    weekday_name(days_from_sunday) + seq![' '] + two_digits(first) + seq!['/'] + two_digits(second)
}

fn push_weekday(s: &mut String, days_from_sunday: u32)
    requires
        days_from_sunday < 7,
    ensures
        final(s)@ == old(s)@ + weekday_name(days_from_sunday as nat),
{
    let name = if days_from_sunday == 0 {
        "Dom"
    } else if days_from_sunday == 1 {
        "Lun"
    } else if days_from_sunday == 2 {
        "Mar"
    } else if days_from_sunday == 3 {
        "Mié"
    } else if days_from_sunday == 4 {
        "Jue"
    } else if days_from_sunday == 5 {
        "Vie"
    } else {
        "Sáb"
    };
    push_str(s, name);
}

/// The time label for `hour:minute` on a 24-hour clock.
pub fn clock_label(hour: u32, minute: u32) -> (r: String)
    requires
        hour < 24,
        minute < 60,
    ensures
        r@ == clock_text(hour as nat, minute as nat),
{
    let h: u32 = if hour % 12 == 0 {
        12
    } else {
        hour % 12
    };
    let mut r = String::new();
    push_decimal(&mut r, h as u64);
    crate::text::push_char(&mut r, ':');
    push_two_digits(&mut r, minute as u64);
    crate::text::push_char(&mut r, ' ');
    if hour < 12 {
        push_str(&mut r, "AM");
    } else {
        push_str(&mut r, "PM");
    }
    r
}

/// The date label: weekday, then `first` and `second` as two digits each.
pub fn date_label(days_from_sunday: u32, first: u32, second: u32) -> (r: String)
    requires
        days_from_sunday < 7,
        first < 100,
        second < 100,
    ensures
        r@ == date_text(days_from_sunday as nat, first as nat, second as nat),
{
    let mut r = String::new();
    push_weekday(&mut r, days_from_sunday);
    crate::text::push_char(&mut r, ' ');
    push_two_digits(&mut r, first as u64);
    crate::text::push_char(&mut r, '/');
    push_two_digits(&mut r, second as u64);
    r
}

/// The clock's labels for a local time: the 12-hour time, and the weekday
/// with month then day ("Lun 03/07").
pub fn get_time_info(hour: u32, minute: u32, days_from_sunday: u32, month: u32, day: u32) -> (t:
    TimeInfo)
    requires
        hour < 24,
        minute < 60,
        days_from_sunday < 7,
        1 <= month <= 12,
        1 <= day <= 31,
    ensures
        t.time@ == clock_text(hour as nat, minute as nat),
        t.date@ == date_text(days_from_sunday as nat, month as nat, day as nat),
{
    TimeInfo { time: clock_label(hour, minute), date: date_label(days_from_sunday, month, day) }
}

/// The clock widget's labels for a local time: the 12-hour time, and the
/// weekday with day then month ("Lun 07/03").
pub fn clock_time_info(hour: u32, minute: u32, days_from_sunday: u32, month: u32, day: u32) -> (t:
    TimeInfo)
    requires
        hour < 24,
        minute < 60,
        days_from_sunday < 7,
        1 <= month <= 12,
        1 <= day <= 31,
    ensures
        t.time@ == clock_text(hour as nat, minute as nat),
        t.date@ == date_text(days_from_sunday as nat, day as nat, month as nat),
{
    TimeInfo { time: clock_label(hour, minute), date: date_label(days_from_sunday, day, month) }
}

} // verus!
