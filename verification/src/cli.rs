//! Parsing of the on/off/toggle mute argument. The word "toggle" is
//! resolved against the device's current mute flag, so the caller passes
//! that flag in.

use vstd::prelude::*;

verus! {

/// The mute state a word asks for: `on`/`true` mute, `off`/`false`
/// unmute, `toggle` inverts the current flag, anything else is rejected.
pub open spec fn spec_parse_bool(s: Seq<char>, current: bool) -> Option<bool> {
    if s == "on"@ || s == "true"@ {
        Some(true)
    } else if s == "off"@ || s == "false"@ {
        Some(false)
    } else if s == "toggle"@ {
        Some(!current)
    } else {
        None
    }
}

/// Resolves a mute-state word against the current mute flag.
pub fn parse_bool(value: &str, current: bool) -> (r: Option<bool>)
    ensures
        r == spec_parse_bool(value@, current),
{
    let v = value.to_owned();
    if v == "on".to_owned() || v == "true".to_owned() {
        Some(true)
    } else if v == "off".to_owned() || v == "false".to_owned() {
        Some(false)
    } else if v == "toggle".to_owned() {
        Some(!current)
    } else {
        None
    }
}

} // verus!
