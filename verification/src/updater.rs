//! Decisions of the self-update path.
//!
//! Checking for and installing an update is platform work done outside the
//! crate; whether to check at all and what progress to show are decided
//! here.

use vstd::prelude::*;
use crate::config::Config;

verus! {

/// Whether the station should look for an update at startup: only when the
/// operator allowed automatic updates.
pub fn should_check_for_updates(config: &Config) -> (r: bool)
    ensures
        r == config.auto_update,
{
    config.auto_update
}

/// Download progress as a whole-number percentage, rounded to nearest.
pub open spec fn progress_percent_spec(downloaded: int, total: int) -> int
    recommends
        total > 0,
{
    (downloaded * 100 + total / 2) / total
}

/// The percentage shown while an update downloads: rounded to the nearest
/// whole percent, never above 100.
pub fn update_progress_percent(downloaded: u64, content_length: u64) -> (r: u64)
    requires
        content_length > 0,
        downloaded <= content_length,
    ensures
        r as int == progress_percent_spec(downloaded as int, content_length as int),
        r <= 100,
{
    let d = downloaded as u128;
    let t = content_length as u128;
    let p = (d * 100 + t / 2) / t;
    proof {
        let di = d as int;
        let ti = t as int;
        assert((di * 100 + ti / 2) / ti <= 100) by (nonlinear_arith)
            requires
                di <= ti,
                ti > 0,
        {}
    }
    p as u64
}

} // verus!
