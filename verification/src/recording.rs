//! Names for saved recordings.
//!
//! A finished recording is converted and saved under a name carrying the
//! UTC time of the save. The conversion itself is media work done outside
//! the crate; the name is decided here.

use vstd::prelude::*;
use vstd::string::StringExecFns;

verus! {

/// The calendar stamp an epoch second count formats to.
pub uninterp spec fn utc_stamp_of(secs: u64) -> Seq<char>;

/// The last second of the year 9999; stamps are four-digit-year text up to
/// here.
pub const MAX_STAMP_SECS: u64 = 253_402_300_799;

/// Formats an epoch second count as a calendar stamp.
///
/// Relies on `chrono::DateTime::<Utc>::from_timestamp` and `DateTime::format`
/// with `%Y-%m-%d_%H-%M-%S`: the text depends on the second count alone, and
/// up to the year 9999 it is 19 characters long.
#[verifier::external_body]
fn format_utc_stamp(secs: u64) -> (r: String)
    requires
        secs <= MAX_STAMP_SECS,
    ensures
        r@ == utc_stamp_of(secs),
        r@.len() == 19,
{
    match chrono::DateTime::from_timestamp(secs as i64, 0) {
        Some(dt) => dt.format("%Y-%m-%d_%H-%M-%S").to_string(),
        None => String::new(),
    }
}

/// The epoch second a stamp is taken at: the given time, held inside the
/// four-digit-year range.
pub open spec fn stamp_secs_of(now_secs: u64) -> u64 {
    if now_secs <= MAX_STAMP_SECS {
        now_secs
    } else {
        MAX_STAMP_SECS
    }
}

/// File name under which a recording saved now is stored: a fixed prefix,
/// the UTC time, and the container suffix.
pub fn recording_file_name(now_secs: u64) -> (r: String)
    ensures
        r@ == "Recording_"@ + utc_stamp_of(stamp_secs_of(now_secs)) + ".mp4"@,
{
    let secs = if now_secs <= MAX_STAMP_SECS {
        now_secs
    } else {
        MAX_STAMP_SECS
    };
    let stamp = format_utc_stamp(secs);
    let name = String::from_str("Recording_").concat(stamp.as_str());
    name.concat(".mp4")
}

} // verus!
