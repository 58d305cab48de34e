use vstd::prelude::*;
use crate::digits::{decimal, decimal_string, fixed_digits, fixed_width};
use crate::model::LocalTime;

verus! {

/// The year as a calendar format's `%Y` writes it: four zero-padded digits
/// within 0..=9999, otherwise a sign and at least four digits.
pub open spec fn year_text(y: int) -> Seq<char> {
    if 0 <= y <= 9999 {
        fixed_width(y as nat, 4)
    } else {
        let m: nat = if y < 0 { (-y) as nat } else { y as nat };
        (if y < 0 { "-"@ } else { "+"@ })
            + if m < 10000 { fixed_width(m, 4) } else { decimal(m) }
    }
}

/// `YYYY年MM月DD日 HH:MM:SS`, the time line of a prompt.
pub open spec fn time_text(t: LocalTime) -> Seq<char> {
    year_text(t.year as int) + "年"@ + fixed_width(t.month as nat, 2) + "月"@
        + fixed_width(t.day as nat, 2) + "日 "@ + fixed_width(t.hour as nat, 2) + ":"@
        + fixed_width(t.minute as nat, 2) + ":"@ + fixed_width(t.second as nat, 2)
}

/// `YYYYMMDD_HHMMSS`, the second-precision stamp of an audit file name.
pub open spec fn stamp_text(t: LocalTime) -> Seq<char> {
    year_text(t.year as int) + fixed_width(t.month as nat, 2) + fixed_width(t.day as nat, 2)
        + "_"@ + fixed_width(t.hour as nat, 2) + fixed_width(t.minute as nat, 2)
        + fixed_width(t.second as nat, 2)
}

/// Relies on chrono's `Local::now` and its `Datelike` / `Timelike` accessors,
/// documented to give a month of 1 to 12, a day of 1 to 31, an hour of 0 to
/// 23 and a minute and second of 0 to 59.
#[verifier::external_body]
fn local_now() -> (r: LocalTime)
    ensures
        r.wf(),
{
    let now = chrono::Local::now();
    LocalTime {
        year: chrono::Datelike::year(&now),
        month: chrono::Datelike::month(&now),
        day: chrono::Datelike::day(&now),
        hour: chrono::Timelike::hour(&now),
        minute: chrono::Timelike::minute(&now),
        second: chrono::Timelike::second(&now),
    }
}

/// Reads the local clock once; the caller keeps the value for the whole
/// request so that every rendering of "now" agrees.
pub fn current_time() -> (r: LocalTime)
    ensures
        r.wf(),
{
    local_now()
}

/// Renders a year as `%Y` does.
pub fn year_string(y: i32) -> (r: String)
    ensures
        r@ == year_text(y as int),
{
    if 0 <= y && y <= 9999 {
        fixed_digits(y as u64, 4)
    } else {
        let m: u64 = if y < 0 { (-(y as i64)) as u64 } else { y as u64 };
        let mut s = if y < 0 { String::from_str("-") } else { String::from_str("+") };
        let digits = if m < 10000 { fixed_digits(m, 4) } else { decimal_string(m) };
        s.append(digits.as_str());
        s
    }
}

/// Renders `YYYY年MM月DD日 HH:MM:SS`.
pub fn format_time(t: &LocalTime) -> (r: String)
    ensures
        r@ == time_text(*t),
{
    let mut s = year_string(t.year);
    s.append("年");
    s.append(fixed_digits(t.month as u64, 2).as_str());
    s.append("月");
    s.append(fixed_digits(t.day as u64, 2).as_str());
    s.append("日 ");
    s.append(fixed_digits(t.hour as u64, 2).as_str());
    s.append(":");
    s.append(fixed_digits(t.minute as u64, 2).as_str());
    s.append(":");
    s.append(fixed_digits(t.second as u64, 2).as_str());
    s
}

/// Renders `YYYYMMDD_HHMMSS`.
pub fn log_stamp(t: &LocalTime) -> (r: String)
    ensures
        r@ == stamp_text(*t),
{
    let mut s = year_string(t.year);
    s.append(fixed_digits(t.month as u64, 2).as_str());
    s.append(fixed_digits(t.day as u64, 2).as_str());
    s.append("_");
    s.append(fixed_digits(t.hour as u64, 2).as_str());
    s.append(fixed_digits(t.minute as u64, 2).as_str());
    s.append(fixed_digits(t.second as u64, 2).as_str());
    s
}

} // verus!
