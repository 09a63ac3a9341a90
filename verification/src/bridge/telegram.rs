//! What the bridge writes to the chat for a message that had to wait.

use vstd::prelude::*;
use vstd::string::StringExecFns;

use crate::text::decimal;
use crate::text::to_decimal;

verus! {

/// Number of seconds after which a waiting message is marked as late.
pub const LATE_SECS: u64 = 60;

/// Whether a message that has waited for `secs` whole seconds and `nanos`
/// nanoseconds more is late: it is once it has waited longer than
/// [`LATE_SECS`].
pub open spec fn is_late(secs: u64, nanos: u32) -> bool {
    secs > LATE_SECS || (secs == LATE_SECS && nanos > 0)
}

/// The text that goes out for a message that has waited: the message, and
/// where it is late the number of whole seconds that it has waited.
pub open spec fn pending_text(text: Seq<char>, secs: u64, nanos: u32) -> Seq<char> {
    if is_late(secs, nanos) {
        text + "["@ + decimal(secs as nat) + "s ago]"@
    } else {
        text
    }
}

/// Writes the text that goes out for a message that has waited.
pub fn outgoing_text(text: &str, secs: u64, nanos: u32) -> (out: String)
    ensures
        out@ == pending_text(text@, secs, nanos),
{
    let mut out = String::from_str(text);
    if secs > LATE_SECS || (secs == LATE_SECS && nanos > 0) {
        out.append("[");
        let age = to_decimal(secs);
        out.append(age.as_str());
        out.append("s ago]");
    }
    out
}

} // verus!
