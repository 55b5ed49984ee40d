//! Rendering a number of capture intervals as a human-readable duration.

use vstd::prelude::*;
use vstd::string::*;
use crate::text::{decimal, decimal_string};
use crate::tray::SystemTray;

verus! {

/// Seconds covered by `count` captures taken every `interval_seconds`.
pub open spec fn total_seconds(count: nat, interval_seconds: nat) -> nat {
    count * interval_seconds
}

/// Whole hours in `seconds`.
pub open spec fn whole_hours(seconds: nat) -> nat {
    seconds / 3600
}

/// Whole minutes of `seconds` that do not fill an hour.
pub open spec fn remaining_minutes(seconds: nat) -> nat {
    (seconds % 3600) / 60
}

/// The text for a duration of `seconds`.
///
/// Under a minute the seconds are shown; under an hour the minutes; on a full
/// hour only the hours; otherwise hours and minutes. Seconds beyond the last
/// whole minute are dropped. One hour is written `1 hr`, several `hrs`.
pub open spec fn duration_text(seconds: nat) -> Seq<char> {
    let hours = whole_hours(seconds);
    let minutes = remaining_minutes(seconds);
    if seconds < 60 {
        decimal(seconds) + " seconds"@
    } else if hours == 0 {
        decimal(minutes) + " mins"@
    } else if minutes == 0 {
        if hours == 1 {
            "1 hr"@
        } else {
            decimal(hours) + " hrs"@
        }
    } else {
        if hours == 1 {
            "1 hr "@ + decimal(minutes) + " mins"@
        } else {
            decimal(hours) + " hrs "@ + decimal(minutes) + " mins"@
        }
    }
}

impl SystemTray {
    /// Renders the time covered by `count` captures, one every
    /// `interval_seconds`, as text.
    pub fn get_hrs_mins(&self, count: u64, interval_seconds: u64) -> (r: String)
        ensures
            r@ == duration_text(total_seconds(count as nat, interval_seconds as nat)),
    {
        assert(count * interval_seconds <= 0xffff_ffff_ffff_ffff * 0xffff_ffff_ffff_ffff)
            by (nonlinear_arith)
            requires
                count <= 0xffff_ffff_ffff_ffff,
                interval_seconds <= 0xffff_ffff_ffff_ffff,
        ;
        let seconds: u128 = (count as u128) * (interval_seconds as u128);
        let hours: u128 = seconds / 3600;
        let minutes: u128 = (seconds % 3600) / 60;
        if seconds < 60 {
            let mut s = decimal_string(seconds);
            s.append(" seconds");
            s
        } else if hours == 0 {
            let mut s = decimal_string(minutes);
            s.append(" mins");
            s
        } else if minutes == 0 {
            if hours == 1 {
                String::from_str("1 hr")
            } else {
                let mut s = decimal_string(hours);
                s.append(" hrs");
                s
            }
        } else {
            if hours == 1 {
                let mut s = String::from_str("1 hr ");
                let m = decimal_string(minutes);
                s.append(m.as_str());
                s.append(" mins");
                s
            } else {
                let mut s = decimal_string(hours);
                s.append(" hrs ");
                let m = decimal_string(minutes);
                s.append(m.as_str());
                s.append(" mins");
                s
            }
        }
    }
}

} // verus!
