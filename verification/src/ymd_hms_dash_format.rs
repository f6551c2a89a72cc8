use crate::text::{text_of, text_or_empty};
use vstd::prelude::*;

verus! {

/// How a creation time is written: year, month and day with dashes, then
/// hours, minutes and seconds with colons.
pub const YMD_HMS_FORMAT: &'static str = "%Y-%m-%d %H:%M:%S";

/// An instant as the file system gives it: whole seconds since the first
/// second of 1970 in UTC, and the nanoseconds within that second.
#[derive(Clone, Copy, Debug, PartialEq, Eq, Structural)]
pub struct Timestamp {
    pub secs: i64,
    pub nanos: u32,
}

/// The text of an instant in UTC under `YMD_HMS_FORMAT`, as the calendar of
/// `chrono` writes it; `None` for an instant that this calendar does not
/// reach.
pub uninterp spec fn ymd_hms_text(secs: i64, nanos: u32) -> Option<Seq<char>>;

/// `chrono::DateTime::from_timestamp` followed by `DateTime::format` with
/// `YMD_HMS_FORMAT`: the text is that of `ymd_hms_text`, and there is none
/// for the instants that `from_timestamp` refuses.
#[verifier::external_body]
fn format_utc(secs: i64, nanos: u32) -> (r: Option<String>)
    ensures
        text_of(r) == ymd_hms_text(secs, nanos),
{
    chrono::DateTime::from_timestamp(secs, nanos).map(|t| t.format(YMD_HMS_FORMAT).to_string())
}

/// The time of the system's clock, as `chrono` takes it from
/// `std::time::SystemTime::now`. Nothing is known of it.
#[verifier::external_body]
pub(crate) fn utc_now() -> (r: Timestamp) {
    let now: chrono::DateTime<chrono::Utc> = std::time::SystemTime::now().into();
    Timestamp { secs: now.timestamp(), nanos: now.timestamp_subsec_nanos() }
}

impl Timestamp {
    /// The instant written under `YMD_HMS_FORMAT`.
    pub open spec fn text(self) -> Option<Seq<char>> {
        ymd_hms_text(self.secs, self.nanos)
    }

    /// Writes the instant under `YMD_HMS_FORMAT`, where the calendar reaches
    /// it.
    pub fn format(&self) -> (r: Option<String>)
        ensures
            text_of(r) == self.text(),
    {
        format_utc(self.secs, self.nanos)
    }

    /// Writes the instant under `YMD_HMS_FORMAT`, and nothing where the
    /// calendar does not reach it.
    pub fn format_or_empty(&self) -> (r: String)
        ensures
            r@ == text_or_empty(self.text()),
    {
        match self.format() {
            Some(s) => s,
            None => String::new(),
        }
    }
}


} // verus!
