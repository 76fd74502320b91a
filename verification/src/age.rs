//! Human-relative age of a commit timestamp: whole days if at least one day
//! old, else whole hours, else whole minutes, else the literal "now".

use vstd::prelude::*;
use crate::strutil::{spec_dec, u64_to_dec};

verus! {

/// The relative age label for a commit at unix time `ts` seen from wall-clock
/// time `now`: "<n>d ago" for at least one whole day, else "<n>h ago" for at
/// least one whole hour, else "<n>m ago" for at least one whole minute, else
/// "now" (also for timestamps in the future).
pub open spec fn spec_age_label(now: int, ts: int) -> Seq<char> {
    let diff = now - ts;
    if diff >= 86400 {
        spec_dec(diff / 86400) + "d ago"@
    } else if diff >= 3600 {
        spec_dec(diff / 3600) + "h ago"@
    } else if diff >= 60 {
        spec_dec(diff / 60) + "m ago"@
    } else {
        "now"@
    }
}

/// Render the relative age label (see `spec_age_label`).
pub fn age_label(now: i64, ts: i64) -> (r: String)
    ensures
        r@ == spec_age_label(now as int, ts as int),
{
    let diff: i128 = (now as i128) - (ts as i128);
    if diff >= 86400 {
        let d: u64 = ((diff as u64) / 86400);
        u64_to_dec(d).concat("d ago")
    } else if diff >= 3600 {
        let h: u64 = ((diff as u64) / 3600);
        u64_to_dec(h).concat("h ago")
    } else if diff >= 60 {
        let m: u64 = ((diff as u64) / 60);
        u64_to_dec(m).concat("m ago")
    } else {
        String::from_str("now")
    }
}

} // verus!
