//! Formatting of an uptime, given in seconds, as a duration label in a
//! short form ("1h 2m 3s") or a long form ("1 hours, 2 minutes, 3
//! seconds"). Zero-valued leading units are omitted, but a zero minute
//! under a non-zero hour is still written out; unit words are never
//! pluralised differently for a count of one.
use vstd::prelude::*;

use crate::text::spec_dec;
use crate::text::u64_to_string;

verus! {

/// The duration label for `seconds`: hours, minutes and seconds by plain
/// division, leading zero-valued units left out.
pub open spec fn spec_format_time(seconds: u64, short: bool) -> Seq<char> {
    let h = seconds as nat / 3600;
    let m = (seconds as nat % 3600) / 60;
    let s = seconds as nat % 60;
    if short {
        if h == 0 && m == 0 {
            spec_dec(s) + "s"@
        } else if h == 0 {
            spec_dec(m) + "m "@ + spec_dec(s) + "s"@
        } else {
            spec_dec(h) + "h "@ + spec_dec(m) + "m "@ + spec_dec(s) + "s"@
        }
    } else {
        if h == 0 && m == 0 {
            spec_dec(s) + " seconds"@
        } else if h == 0 {
            spec_dec(m) + " minutes, "@ + spec_dec(s) + " seconds"@
        } else {
            spec_dec(h) + " hours, "@ + spec_dec(m) + " minutes, "@ + spec_dec(s) + " seconds"@
        }
    }
}

/// Renders `seconds` as a duration label.
pub fn format_time(seconds: u64, short: bool) -> (r: String)
    ensures
        r@ == spec_format_time(seconds, short),
{
    let hours = seconds / 3600;
    let minutes = (seconds % 3600) / 60;
    let secs = seconds % 60;
    proof {
        assert(hours as nat == seconds as nat / 3600);
        assert(minutes as nat == (seconds as nat % 3600) / 60);
        assert(secs as nat == seconds as nat % 60);
    }
    let mut r = String::new();
    if short {
        if hours == 0 && minutes == 0 {
            r.append(u64_to_string(secs).as_str());
            r.append("s");
        } else if hours == 0 {
            r.append(u64_to_string(minutes).as_str());
            r.append("m ");
            r.append(u64_to_string(secs).as_str());
            r.append("s");
        } else {
            r.append(u64_to_string(hours).as_str());
            r.append("h ");
            r.append(u64_to_string(minutes).as_str());
            r.append("m ");
            r.append(u64_to_string(secs).as_str());
            r.append("s");
        }
    } else {
        if hours == 0 && minutes == 0 {
            r.append(u64_to_string(secs).as_str());
            r.append(" seconds");
        } else if hours == 0 {
            r.append(u64_to_string(minutes).as_str());
            r.append(" minutes, ");
            r.append(u64_to_string(secs).as_str());
            r.append(" seconds");
        } else {
            r.append(u64_to_string(hours).as_str());
            r.append(" hours, ");
            r.append(u64_to_string(minutes).as_str());
            r.append(" minutes, ");
            r.append(u64_to_string(secs).as_str());
            r.append(" seconds");
        }
    }
    proof {
        assert(r@ =~= spec_format_time(seconds, short));
    }
    r
}

} // verus!
