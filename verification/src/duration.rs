//! Human-readable rendering of elapsed time, bucketed by magnitude.

use vstd::prelude::*;
use crate::strfmt::{dec_str, u64_to_string};

verus! {

/// Bucketed rendering of an elapsed duration in seconds: at least a day
/// gives `"{d}d {h}h"`, at least an hour `"{h}h {m}m"`, at least a minute
/// `"{m}m"`, anything shorter `"{s}s"`, and a negative duration (clock
/// skew) the literal `"just now"`.
pub open spec fn spec_format_duration(t: int) -> Seq<char> {
    if t < 0 {
        "just now"@
    } else {
        let d = t / 86400;
        let h = (t % 86400) / 3600;
        let m = (t % 3600) / 60;
        if d > 0 {
            dec_str(d as nat) + "d "@ + dec_str(h as nat) + "h"@
        } else if h > 0 {
            dec_str(h as nat) + "h "@ + dec_str(m as nat) + "m"@
        } else if m > 0 {
            dec_str(m as nat) + "m"@
        } else {
            dec_str(t as nat) + "s"@
        }
    }
}

/// Renders an elapsed duration, bucketed by magnitude.
pub fn format_duration(total_seconds: i64) -> (s: String)
    ensures
        s@ == spec_format_duration(total_seconds as int),
{
    if total_seconds < 0 {
        return String::from_str("just now");
    }
    let t = total_seconds as u64;
    let days = t / 86400;
    let hours = (t % 86400) / 3600;
    let minutes = (t % 3600) / 60;
    if days > 0 {
        let mut s = u64_to_string(days);
        s.append("d ");
        let hs = u64_to_string(hours);
        s.append(hs.as_str());
        s.append("h");
        s
    } else if hours > 0 {
        let mut s = u64_to_string(hours);
        s.append("h ");
        let ms = u64_to_string(minutes);
        s.append(ms.as_str());
        s.append("m");
        s
    } else if minutes > 0 {
        let mut s = u64_to_string(minutes);
        s.append("m");
        s
    } else {
        let mut s = u64_to_string(t);
        s.append("s");
        s
    }
}

/// Like `spec_format_duration`, without the space between the units:
/// `"{d}d{h}h"`, `"{h}h{m}m"`, `"{m}m"`, `"{s}s"`.
pub open spec fn spec_format_age(t: int) -> Seq<char> {
    if t < 0 {
        "just now"@
    } else {
        let d = t / 86400;
        let h = (t % 86400) / 3600;
        let m = (t % 3600) / 60;
        if d > 0 {
            dec_str(d as nat) + "d"@ + dec_str(h as nat) + "h"@
        } else if h > 0 {
            dec_str(h as nat) + "h"@ + dec_str(m as nat) + "m"@
        } else if m > 0 {
            dec_str(m as nat) + "m"@
        } else {
            dec_str(t as nat) + "s"@
        }
    }
}

/// Renders the age of a workload, compactly.
pub fn format_age(seconds: i64) -> (s: String)
    ensures
        s@ == spec_format_age(seconds as int),
{
    if seconds < 0 {
        return String::from_str("just now");
    }
    let t = seconds as u64;
    let days = t / 86400;
    let hours = (t % 86400) / 3600;
    let minutes = (t % 3600) / 60;
    if days > 0 {
        let mut s = u64_to_string(days);
        s.append("d");
        let hs = u64_to_string(hours);
        s.append(hs.as_str());
        s.append("h");
        s
    } else if hours > 0 {
        let mut s = u64_to_string(hours);
        s.append("h");
        let ms = u64_to_string(minutes);
        s.append(ms.as_str());
        s.append("m");
        s
    } else if minutes > 0 {
        let mut s = u64_to_string(minutes);
        s.append("m");
        s
    } else {
        let mut s = u64_to_string(t);
        s.append("s");
        s
    }
}

/// Node uptime rendering: as `spec_format_duration`, but a negative uptime
/// reads `"just started"`.
pub open spec fn spec_format_uptime(t: int) -> Seq<char> {
    if t < 0 {
        "just started"@
    } else {
        spec_format_duration(t)
    }
}

/// Renders a node's uptime.
pub fn format_uptime(seconds: i64) -> (s: String)
    ensures
        s@ == spec_format_uptime(seconds as int),
{
    if seconds < 0 {
        String::from_str("just started")
    } else {
        format_duration(seconds)
    }
}

/// Event age rendering: hour-bucketed with an `" ago"` suffix;
/// `"{h}h {m}m ago"`, `"{m}m ago"`, `"{s}s ago"`, negative is `"just now"`.
pub open spec fn spec_format_event_age(t: int) -> Seq<char> {
    if t < 0 {
        "just now"@
    } else {
        let h = t / 3600;
        let m = (t % 3600) / 60;
        let s = t % 60;
        if h > 0 {
            dec_str(h as nat) + "h "@ + dec_str(m as nat) + "m ago"@
        } else if m > 0 {
            dec_str(m as nat) + "m ago"@
        } else {
            dec_str(s as nat) + "s ago"@
        }
    }
}

/// Renders how long ago an event was last seen.
pub fn format_event_age(total_seconds: i64) -> (s: String)
    ensures
        s@ == spec_format_event_age(total_seconds as int),
{
    if total_seconds < 0 {
        return String::from_str("just now");
    }
    let t = total_seconds as u64;
    let hours = t / 3600;
    let minutes = (t % 3600) / 60;
    let seconds = t % 60;
    if hours > 0 {
        let mut s = u64_to_string(hours);
        s.append("h ");
        let ms = u64_to_string(minutes);
        s.append(ms.as_str());
        s.append("m ago");
        s
    } else if minutes > 0 {
        let mut s = u64_to_string(minutes);
        s.append("m ago");
        s
    } else {
        let mut s = u64_to_string(seconds);
        s.append("s ago");
        s
    }
}

/// Job duration rendering: `"{d}d {h}h"`, `"{h}h {m}m"`, `"{m}m {s}s"`,
/// `"{s}s"`, negative is `"just now"`.
pub open spec fn spec_format_job_duration(t: int) -> Seq<char> {
    if t < 0 {
        "just now"@
    } else {
        let d = t / 86400;
        let h = (t % 86400) / 3600;
        let m = (t % 3600) / 60;
        let s = t % 60;
        if d > 0 {
            dec_str(d as nat) + "d "@ + dec_str(h as nat) + "h"@
        } else if h > 0 {
            dec_str(h as nat) + "h "@ + dec_str(m as nat) + "m"@
        } else if m > 0 {
            dec_str(m as nat) + "m "@ + dec_str(s as nat) + "s"@
        } else {
            dec_str(s as nat) + "s"@
        }
    }
}

/// Renders the duration of a scheduled job run.
pub fn format_job_duration(total_seconds: i64) -> (s: String)
    ensures
        s@ == spec_format_job_duration(total_seconds as int),
{
    if total_seconds < 0 {
        return String::from_str("just now");
    }
    let t = total_seconds as u64;
    let days = t / 86400;
    let hours = (t % 86400) / 3600;
    let minutes = (t % 3600) / 60;
    let seconds = t % 60;
    if days > 0 {
        let mut s = u64_to_string(days);
        s.append("d ");
        let hs = u64_to_string(hours);
        s.append(hs.as_str());
        s.append("h");
        s
    } else if hours > 0 {
        let mut s = u64_to_string(hours);
        s.append("h ");
        let ms = u64_to_string(minutes);
        s.append(ms.as_str());
        s.append("m");
        s
    } else if minutes > 0 {
        let mut s = u64_to_string(minutes);
        s.append("m ");
        let ss = u64_to_string(seconds);
        s.append(ss.as_str());
        s.append("s");
        s
    } else {
        let mut s = u64_to_string(seconds);
        s.append("s");
        s
    }
}

} // verus!
