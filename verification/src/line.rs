//! Verified assembly of one console line from its rendered fields.

use vstd::prelude::*;
use vstd::string::StringExecFns;

verus! {

/// `s` wrapped in square brackets.
pub open spec fn spec_bracketed(s: Seq<char>) -> Seq<char> {
    "["@ + s + "]"@
}

/// The full console line: the five rendered fields, separated by single
/// spaces, in the fixed order timestamp, severity label, thread tag,
/// component, message.
pub open spec fn spec_line(
    timestamp: Seq<char>,
    label: Seq<char>,
    thread_tag: Seq<char>,
    component: Seq<char>,
    message: Seq<char>,
) -> Seq<char> {
    timestamp + " "@ + label + " "@ + thread_tag + " "@ + component + " "@ + message
}

/// Wrap a field in square brackets.
pub fn bracketed(s: &str) -> (r: String)
    ensures
        r@ == spec_bracketed(s@),
{
    let mut out = String::from_str("[");
    out.append(s);
    out.append("]");
    proof {
        assert(out@ =~= spec_bracketed(s@));
    }
    out
}

/// Join the five rendered fields of one log line with single spaces.
pub fn compose_line(
    timestamp: &str,
    label: &str,
    thread_tag: &str,
    component: &str,
    message: &str,
) -> (r: String)
    ensures
        r@ == spec_line(timestamp@, label@, thread_tag@, component@, message@),
{
    let mut out = String::from_str(timestamp);
    out.append(" ");
    out.append(label);
    out.append(" ");
    out.append(thread_tag);
    out.append(" ");
    out.append(component);
    out.append(" ");
    out.append(message);
    proof {
        assert(out@ =~= spec_line(timestamp@, label@, thread_tag@, component@, message@));
    }
    out
}

} // verus!
