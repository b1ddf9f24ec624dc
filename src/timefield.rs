//! Reading the time column of a history into milliseconds since the Unix epoch, UTC.
use vstd::prelude::*;
use crate::builder::CsvTimeType;

verus! {

/// Why a time cell cannot be read.
#[derive(Clone, Copy, Debug, PartialEq, Eq, Structural)]
pub enum TimeFieldError {
    /// The cell does not match the configured form.
    Invalid,
    /// The time cannot be held in milliseconds as an `i64`.
    OutOfRange,
}

/// The decimal integer that a text spells, as `i64::from_str` reads it.
pub uninterp spec fn parsed_i64(s: Seq<char>) -> Option<i64>;

/// Midnight UTC of the date that `s` spells in format `fmt`, in milliseconds,
/// as chrono's `NaiveDate::parse_from_str` reads it.
pub uninterp spec fn date_millis(s: Seq<char>, fmt: Seq<char>) -> Option<i64>;

/// The UTC time that `s` spells in format `fmt`, in milliseconds, as chrono's
/// `NaiveDateTime::parse_from_str` reads it.
pub uninterp spec fn datetime_millis(s: Seq<char>, fmt: Seq<char>) -> Option<i64>;

/// Relies on `i64::from_str`: `None` where the text is no decimal `i64`.
#[verifier::external_body]
fn parse_i64(v: &str) -> (r: Option<i64>)
    ensures
        r == parsed_i64(v@),
{
    v.parse::<i64>().ok()
}

/// Relies on chrono's `NaiveDate::parse_from_str`, then midnight of that date
/// taken as UTC and counted in milliseconds.
#[verifier::external_body]
fn parse_date(v: &str, fmt: &str) -> (r: Option<i64>)
    ensures
        r == date_millis(v@, fmt@),
{
    match chrono::NaiveDate::parse_from_str(v, fmt) {
        Ok(d) => match d.and_hms_opt(0, 0, 0) {
            Some(t) => Some(t.and_utc().timestamp_millis()),
            None => None,
        },
        Err(_) => None,
    }
}

/// Relies on chrono's `NaiveDateTime::parse_from_str`, the time taken as UTC
/// and counted in milliseconds.
#[verifier::external_body]
fn parse_datetime(v: &str, fmt: &str) -> (r: Option<i64>)
    ensures
        r == datetime_millis(v@, fmt@),
{
    match chrono::NaiveDateTime::parse_from_str(v, fmt) {
        Ok(t) => Some(t.and_utc().timestamp_millis()),
        Err(_) => None,
    }
}

/// What a time cell reads as, under each configured form.
pub open spec fn time_value(ty: CsvTimeType, v: Seq<char>) -> Result<i64, TimeFieldError> {
    match ty {
        CsvTimeType::Millsecond => match parsed_i64(v) {
            Some(n) => Ok(n),
            None => Err(TimeFieldError::Invalid),
        },
        CsvTimeType::Second => match parsed_i64(v) {
            Some(n) => if i64::MIN <= n * 1000 <= i64::MAX {
                Ok((n * 1000) as i64)
            } else {
                Err(TimeFieldError::OutOfRange)
            },
            None => Err(TimeFieldError::Invalid),
        },
        CsvTimeType::Date(fmt) => match date_millis(v, fmt@) {
            Some(m) => Ok(m),
            None => Err(TimeFieldError::Invalid),
        },
        CsvTimeType::Datetime(fmt) => match datetime_millis(v, fmt@) {
            Some(m) => Ok(m),
            None => Err(TimeFieldError::Invalid),
        },
        CsvTimeType::Unknown => Err(TimeFieldError::Invalid),
    }
}

/// Reads a time cell in the configured form (which must be known).
pub fn parse_time_field(ty: &CsvTimeType, v: &str) -> (r: Result<i64, TimeFieldError>)
    requires
        !(*ty is Unknown),
    ensures
        r == time_value(*ty, v@),
{
    match ty {
        CsvTimeType::Millsecond => match parse_i64(v) {
            Some(n) => Ok(n),
            None => Err(TimeFieldError::Invalid),
        },
        CsvTimeType::Second => match parse_i64(v) {
            Some(n) => {
                if n >= -9_223_372_036_854_775 && n <= 9_223_372_036_854_775 {
                    Ok(n * 1000)
                } else {
                    Err(TimeFieldError::OutOfRange)
                }
            },
            None => Err(TimeFieldError::Invalid),
        },
        CsvTimeType::Date(fmt) => match parse_date(v, fmt) {
            Some(m) => Ok(m),
            None => Err(TimeFieldError::Invalid),
        },
        CsvTimeType::Datetime(fmt) => match parse_datetime(v, fmt) {
            Some(m) => Ok(m),
            None => Err(TimeFieldError::Invalid),
        },
        CsvTimeType::Unknown => Err(TimeFieldError::Invalid),
    }
}

} // verus!
