//! The event log: one file per day, in one folder per month; the folder of
//! the coming month is emptied in the last days of the current one.

use vstd::prelude::*;
use vstd::string::StringExecFns;
use std::fmt::Write;

verus! {

/// A moment of local time.
#[derive(Clone, Copy, Debug, PartialEq, Eq, Structural)]
pub struct Moment {
    pub year: i32,
    pub month: u32,
    pub day: u32,
    pub hour: u32,
    pub minute: u32,
    pub second: u32,
}

/// What logging one event does to the files.
#[derive(Debug)]
pub struct LogPlan {
    /// The folder whose files are removed first, if any.
    pub clear_dir: Option<String>,
    /// The file that the line is appended to.
    pub file: String,
    /// The line, without its line break.
    pub line: String,
}

/// The mathematical value of a [`LogPlan`].
pub struct LogPlanView {
    pub clear_dir: Option<Seq<char>>,
    pub file: Seq<char>,
    pub line: Seq<char>,
}

impl View for LogPlan {
    type V = LogPlanView;

    open spec fn view(&self) -> LogPlanView {
        LogPlanView {
            clear_dir: match self.clear_dir {
                Some(d) => Some(d@),
                None => None,
            },
            file: self.file@,
            line: self.line@,
        }
    }
}

/// The day of the month from which on the folder of the coming month is
/// emptied.
pub const CLEAR_FROM_DAY: u32 = 22;

/// The folder of a month.
pub open spec fn month_folder(month: u32) -> Seq<char> {
    if month == 1 {
        "1-jan"@
    } else if month == 2 {
        "2-feb"@
    } else if month == 3 {
        "3-mar"@
    } else if month == 4 {
        "4-apr"@
    } else if month == 5 {
        "5-may"@
    } else if month == 6 {
        "6-jun"@
    } else if month == 7 {
        "7-jul"@
    } else if month == 8 {
        "8-aug"@
    } else if month == 9 {
        "9-sep"@
    } else if month == 10 {
        "10-oct"@
    } else if month == 11 {
        "11-nov"@
    } else {
        "12-dec"@
    }
}

/// The month after `month`; January follows December.
pub open spec fn month_after(month: u32) -> u32 {
    if month == 12 {
        1
    } else {
        (month + 1) as u32
    }
}

/// The text of a date and time in a given pattern, as chrono writes it:
/// nothing when the numbers are no date and time of the calendar or the
/// pattern cannot be written for them.
pub uninterp spec fn formatted(
    year: i32,
    month: u32,
    day: u32,
    hour: u32,
    minute: u32,
    second: u32,
    pattern: Seq<char>,
) -> Option<Seq<char>>;

/// The text of the moment `m` in a given pattern.
pub open spec fn moment_text(m: Moment, pattern: Seq<char>) -> Option<Seq<char>> {
    formatted(m.year, m.month, m.day, m.hour, m.minute, m.second, pattern)
}

/// `chrono::NaiveDate::from_ymd_opt` and `NaiveDate::and_hms_opt` make the
/// date and time that the numbers denote, if there is one, and
/// `NaiveDateTime::format` writes it in the pattern. The result is what
/// [`formatted`] names: it depends on the numbers and the pattern alone.
/// Writing a pattern that is wrong fails, and gives nothing.
#[verifier::external_body]
fn format_moment(m: &Moment, pattern: &str) -> (out: Option<String>)
    ensures
        match out {
            Some(text) => formatted(
                m.year,
                m.month,
                m.day,
                m.hour,
                m.minute,
                m.second,
                pattern@,
            ) == Some(text@),
            None => formatted(m.year, m.month, m.day, m.hour, m.minute, m.second, pattern@)
                is None,
        },
{
    match chrono::NaiveDate::from_ymd_opt(m.year, m.month, m.day) {
        Some(date) => match date.and_hms_opt(m.hour, m.minute, m.second) {
            Some(time) => {
                let mut out = String::new();
                match write!(out, "{}", time.format(pattern)) {
                    Ok(()) => Some(out),
                    Err(_) => None,
                }
            },
            None => None,
        },
        None => None,
    }
}

/// The pattern of the date in the name of a log file.
pub open spec fn date_pattern() -> Seq<char> {
    "%Y-%m-%d"@
}

/// The pattern of the date and time in front of a log line.
pub open spec fn stamp_pattern() -> Seq<char> {
    "%Y-%m-%d %H:%M:%S"@
}

/// What logging `message` at the moment `m` does: nothing for a month
/// that is none or a moment that cannot be written; otherwise the line goes
/// to the file of the day in the folder of the month, and from the 22nd on
/// the folder of the coming month is emptied first.
pub open spec fn log_plan(message: Seq<char>, m: Moment) -> Option<LogPlanView> {
    if !(1 <= m.month <= 12) {
        None
    } else {
        match (moment_text(m, date_pattern()), moment_text(m, stamp_pattern())) {
            (Some(date), Some(stamp)) => Some(
                LogPlanView {
                    clear_dir: if m.day >= CLEAR_FROM_DAY {
                        Some("logs/"@ + month_folder(month_after(m.month)))
                    } else {
                        None
                    },
                    file: "logs/"@ + month_folder(m.month) + "/"@ + date + ".log"@,
                    line: "["@ + stamp + "] - "@ + message,
                },
            ),
            _ => None,
        }
    }
}

/// Whether `out` is the plan `planned`, taken by its value.
pub open spec fn is_plan(out: Option<LogPlan>, planned: Option<LogPlanView>) -> bool {
    match out {
        Some(plan) => planned == Some(plan@),
        None => planned is None,
    }
}

/// The folder of a month, from 1 for January to 12 for December.
pub fn get_month_folder(month: u32) -> (out: String)
    requires
        1 <= month <= 12,
    ensures
        out@ == month_folder(month),
{
    let name = if month == 1 {
        "1-jan"
    } else if month == 2 {
        "2-feb"
    } else if month == 3 {
        "3-mar"
    } else if month == 4 {
        "4-apr"
    } else if month == 5 {
        "5-may"
    } else if month == 6 {
        "6-jun"
    } else if month == 7 {
        "7-jul"
    } else if month == 8 {
        "8-aug"
    } else if month == 9 {
        "9-sep"
    } else if month == 10 {
        "10-oct"
    } else if month == 11 {
        "11-nov"
    } else {
        "12-dec"
    };
    String::from_str(name)
}

/// The folder of the month after `month`.
pub fn get_next_month_folder(month: u32) -> (out: String)
    requires
        1 <= month <= 12,
    ensures
        out@ == month_folder(month_after(month)),
{
    let next: u32 = if month == 12 {
        1
    } else {
        month + 1
    };
    get_month_folder(next)
}

/// What logging `event_message` at the moment `now` does: which folder is
/// emptied first, which file the line goes to, and the line. The caller
/// reads the clock and carries the plan out.
pub fn log_event(event_message: &str, now: &Moment) -> (out: Option<LogPlan>)
    ensures
        is_plan(out, log_plan(event_message@, *now)),
{
    if now.month < 1 || now.month > 12 {
        return None;
    }
    let date = match format_moment(now, "%Y-%m-%d") {
        Some(date) => date,
        None => {
            return None;
        },
    };
    let stamp = match format_moment(now, "%Y-%m-%d %H:%M:%S") {
        Some(stamp) => stamp,
        None => {
            return None;
        },
    };
    let clear_dir = if now.day >= CLEAR_FROM_DAY {
        let folder = get_next_month_folder(now.month);
        Some(String::from_str("logs/").concat(folder.as_str()))
    } else {
        None
    };
    let folder = get_month_folder(now.month);
    let mut file = String::from_str("logs/").concat(folder.as_str());
    file.append("/");
    file.append(date.as_str());
    file.append(".log");
    let mut line = String::from_str("[");
    line.append(stamp.as_str());
    line.append("] - ");
    line.append(event_message);
    Some(LogPlan { clear_dir, file, line })
}

} // verus!
