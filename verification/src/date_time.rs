use vstd::prelude::*;

verus! {

/// A commit timestamp, already shifted into the commit's own UTC offset:
/// the calendar fields are what a clock at that offset showed.
#[derive(Clone, Copy, Debug, PartialEq, Eq, Structural)]
pub struct DateTime {
    pub year: i32,
    pub month: u8,
    pub day: u8,
    pub hour: u8,
    pub minute: u8,
    pub second: u8,
    pub offsetSeconds: i32,
}

impl DateTime {
    /// The calendar fields lie in their ordinary ranges.
    pub open spec fn wf(self) -> bool {
        &&& 1 <= self.month <= 12
        &&& 1 <= self.day <= 31
        &&& self.hour < 24
        &&& self.minute < 60
        &&& self.second < 60
    }
}

/// The calendar date and clock time that a Unix timestamp shows at the
/// given UTC offset, or nothing when the timestamp or the offset lies
/// outside the supported range.  A pure function of its two arguments.
pub uninterp spec fn civil_of(seconds: int, offsetSeconds: int) -> Option<DateTime>;

/// Relies on `time::OffsetDateTime::from_unix_timestamp` and
/// `checked_to_offset`: the civil calendar fields of a timestamp depend on
/// the timestamp and the offset alone; the constructors reject out-of-range
/// values as errors, `checked_to_offset` answers `None` where the shifted
/// moment would leave the supported years, and the components handed out
/// are in calendar range.  No input panics.
#[verifier::external_body]
fn civilFromUnix(seconds: i64, offsetSeconds: i32) -> (r: Option<DateTime>)
    ensures
        r == civil_of(seconds as int, offsetSeconds as int),
        r matches Some(d) ==> d.wf() && d.offsetSeconds == offsetSeconds,
{
    let offset = time::UtcOffset::from_whole_seconds(offsetSeconds).ok()?;
    let utc = time::OffsetDateTime::from_unix_timestamp(seconds).ok()?;
    let local = utc.checked_to_offset(offset)?;
    Some(DateTime {
        year: local.year(),
        month: u8::from(local.month()),
        day: local.day(),
        hour: local.hour(),
        minute: local.minute(),
        second: local.second(),
        offsetSeconds,
    })
}

/// What `makeDateTime` yields: the civil time at the offset, or nothing
/// when the offset in seconds overflows or the timestamp is out of range.
pub open spec fn spec_make_date_time(seconds: int, offsetMinutes: int) -> Option<DateTime> {
    let offsetSeconds = offsetMinutes * 60;
    if i32::MIN <= offsetSeconds <= i32::MAX {
        civil_of(seconds, offsetSeconds)
    } else {
        None
    }
}

/// Turns a commit's raw timestamp (Unix seconds plus an offset in minutes)
/// into the civil date and time it shows at that offset.
pub fn makeDateTime(seconds: i64, offsetMinutes: i32) -> (r: Option<DateTime>)
    ensures
        r == spec_make_date_time(seconds as int, offsetMinutes as int),
        r matches Some(d) ==> d.wf(),
{
    let offsetSeconds64: i64 = (offsetMinutes as i64) * 60;
    if offsetSeconds64 >= i32::MIN as i64 && offsetSeconds64 <= i32::MAX as i64 {
        civilFromUnix(seconds, offsetSeconds64 as i32)
    } else {
        None
    }
}

/// The RFC 2822 rendering of a date and time (as in `Thu, 01 Jan 1970
/// 00:00:00 +0000`), or nothing when some component cannot be rendered.
/// A pure function of the date's fields.
pub uninterp spec fn rfc2822_of(d: DateTime) -> Option<Seq<char>>;

/// Relies on `time`'s `Rfc2822` formatting (with `Date::from_calendar_date`,
/// `Time::from_hms` and `UtcOffset::from_whole_seconds` to rebuild the
/// moment): the rendering depends on the date's fields alone, and invalid
/// components are rejected as errors, not panics.
#[verifier::external_body]
pub fn formatRfc2822(d: &DateTime) -> (r: Option<String>)
    ensures
        match r {
            Some(s) => rfc2822_of(*d) == Some(s@),
            None => rfc2822_of(*d) is None,
        },
{
    let month = time::Month::try_from(d.month).ok()?;
    let date = time::Date::from_calendar_date(d.year, month, d.day).ok()?;
    let clock = time::Time::from_hms(d.hour, d.minute, d.second).ok()?;
    let offset = time::UtcOffset::from_whole_seconds(d.offsetSeconds).ok()?;
    let moment = time::OffsetDateTime::new_in_offset(date, clock, offset);
    moment.format(&time::format_description::well_known::Rfc2822).ok()
}

} // verus!
