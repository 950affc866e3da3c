use vstd::prelude::*;
use crate::date_format::{days_in_month, month_length, DateTimeFields};

verus! {

/// The fields of a time-zone-aware instant as a date parser hands them out: the local
/// date and time of day, and the zone's offset east of UTC in seconds.
#[derive(Clone, Copy, Debug, PartialEq, Eq, Structural)]
pub struct RawInstant {
    pub year: i32,
    pub month: u32,
    pub day: u32,
    pub hour: u32,
    pub minute: u32,
    pub second: u32,
    pub offset_seconds: i32,
}

/// A time-zone-aware instant: the local date and time, and the offset east of UTC.
#[derive(Clone, Copy, Debug, PartialEq, Eq, Structural)]
pub struct ZonedDateTime {
    pub local: DateTimeFields,
    pub offset_seconds: i32,
}

/// The start and end of the range to export. That the start comes first is not
/// checked here: the time tracker receives the dates as given and decides.
#[derive(Clone, Copy, Debug, PartialEq, Eq, Structural)]
pub struct TimeRange {
    pub start: ZonedDateTime,
    pub end: ZonedDateTime,
}

/// A date expression that names no usable instant: the expression, and why.
#[derive(Debug)]
pub struct RangeError {
    pub input: String,
    pub diagnostic: String,
}

/// The instant that `raw` describes, where its year has four digits and its fields
/// name an existing second with an offset of less than a day.
pub open spec fn zoned_from_raw(raw: RawInstant) -> Option<ZonedDateTime> {
    if 0 <= raw.year <= 9999 && 1 <= raw.month <= 12 && 1 <= raw.day <= days_in_month(
        raw.year as int,
        raw.month as int,
    ) && raw.hour < 24 && raw.minute < 60 && raw.second < 60 && -86400 < raw.offset_seconds
        < 86400 {
        Some(
            ZonedDateTime {
                local: DateTimeFields {
                    year: raw.year as u16,
                    month: raw.month as u8,
                    day: raw.day as u8,
                    hour: raw.hour as u8,
                    minute: raw.minute as u8,
                    second: raw.second as u8,
                },
                offset_seconds: raw.offset_seconds,
            },
        )
    } else {
        None
    }
}

impl ZonedDateTime {
    /// The local fields name an existing second and the offset is under a day.
    pub open spec fn wf(&self) -> bool {
        &&& self.local.wf()
        &&& -86400 < self.offset_seconds < 86400
    }

    /// The instant that `raw` describes; `None` where the year has not four digits or
    /// the fields name no second of the calendar.
    pub fn from_raw(raw: RawInstant) -> (r: Option<ZonedDateTime>)
        ensures
            r == zoned_from_raw(raw),
            r matches Some(z) ==> z.wf(),
    {
        if raw.year < 0 || raw.year > 9999 || raw.month < 1 || raw.month > 12 || raw.hour >= 24
            || raw.minute >= 60 || raw.second >= 60 || raw.offset_seconds <= -86400
            || raw.offset_seconds >= 86400 {
            return None;
        }
        let year = raw.year as u16;
        let month = raw.month as u8;
        if raw.day < 1 || raw.day > month_length(year, month) as u32 {
            return None;
        }
        let local = DateTimeFields {
            year,
            month,
            day: raw.day as u8,
            hour: raw.hour as u8,
            minute: raw.minute as u8,
            second: raw.second as u8,
        };
        Some(ZonedDateTime { local, offset_seconds: raw.offset_seconds })
    }
}

/// Takes what the parser made of one expression to an instant of the range, or to an
/// error that names the expression and says why.
pub fn instant_from_parsed(input: &str, parsed: Result<RawInstant, String>) -> (r: Result<
    ZonedDateTime,
    RangeError,
>)
    ensures
        match parsed {
            Ok(raw) => match zoned_from_raw(raw) {
                Some(z) => r == Ok::<ZonedDateTime, RangeError>(z),
                None => r matches Err(e) && e.input@ == input@,
            },
            Err(d) => r matches Err(e) && e.input@ == input@ && e.diagnostic@ == d@,
        },
{
    match parsed {
        Ok(raw) => match ZonedDateTime::from_raw(raw) {
            Some(z) => Ok(z),
            None => Err(
                RangeError {
                    input: input.to_owned(),
                    diagnostic: "not a date with a four-digit year".to_owned(),
                },
            ),
        },
        Err(d) => Err(RangeError { input: input.to_owned(), diagnostic: d }),
    }
}

/// The instant that the parser's outcome for one expression gives, if any.
pub open spec fn instant_of(parsed: Result<RawInstant, String>) -> Option<ZonedDateTime> {
    match parsed {
        Ok(raw) => zoned_from_raw(raw),
        Err(_) => None,
    }
}

/// `e` names the expression `input`, and carries the parser's diagnostic where the
/// parser failed.
pub open spec fn names_failure(
    e: RangeError,
    input: Seq<char>,
    parsed: Result<RawInstant, String>,
) -> bool {
    &&& e.input@ == input
    &&& parsed matches Err(d) ==> e.diagnostic@ == d@
}

/// The three arguments of the export run: the subcommand, then the start and the end
/// date, each as `YYYY-MM-DD`.
pub open spec fn export_args_for(range: TimeRange) -> Seq<Seq<char>> {
    seq!["export"@, range.start.local.date_text(), range.end.local.date_text()]
}

impl TimeRange {
    /// Both ends are valid instants.
    pub open spec fn wf(&self) -> bool {
        self.start.wf() && self.end.wf()
    }

    /// Builds the range from what the date parser made of the two expressions, the
    /// start looked at first: an error names the first expression that yields no
    /// instant.
    pub fn resolve(
        start: &str,
        end: &str,
        parsed_start: Result<RawInstant, String>,
        parsed_end: Result<RawInstant, String>,
    ) -> (r: Result<TimeRange, RangeError>)
        ensures
            match (instant_of(parsed_start), instant_of(parsed_end)) {
                (Some(a), Some(b)) => r == Ok::<TimeRange, RangeError>(
                    TimeRange { start: a, end: b },
                ),
                (None, _) => r matches Err(e) && names_failure(e, start@, parsed_start),
                (Some(_), None) => r matches Err(e) && names_failure(e, end@, parsed_end),
            },
            r matches Ok(range) ==> range.wf(),
    {
        let s = instant_from_parsed(start, parsed_start)?;
        let e = instant_from_parsed(end, parsed_end)?;
        Ok(TimeRange { start: s, end: e })
    }

    /// The arguments for the export run; the time of day is dropped from both ends.
    pub fn export_args(&self) -> (r: Vec<String>)
        requires
            self.wf(),
        ensures
            r@.len() == 3,
            forall|i: int| 0 <= i < 3 ==> #[trigger] r@[i]@ == export_args_for(*self)[i],
    {
        let mut args: Vec<String> = Vec::new();
        args.push("export".to_owned());
        args.push(self.start.local.format_date());
        args.push(self.end.local.format_date());
        args
    }
}

} // verus!
