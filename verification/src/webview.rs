//! What a display's window is called, and what its page is told when the
//! window gains or loses the focus.

use vstd::prelude::*;
use vstd::string::*;
use crate::text::{decimal, decimal_digits};

verus! {

/// The title of the window on the monitor at place `idx`.
pub open spec fn window_title_text(idx: u32) -> Seq<char> {
    "maypaper (info) ["@ + decimal_digits(idx as nat) + "]"@
}

/// The title of the window on the monitor at place `idx`.
pub fn window_title(idx: u32) -> (title: String)
    ensures
        title@ == window_title_text(idx),
{
    let mut title = String::from_str("maypaper (info) [");
    let digits = decimal(idx as u64);
    title.append(digits.as_str());
    title.append("]");
    title
}

/// The script that tells a page whether its window has the focus.
pub open spec fn focus_script_text(active: bool) -> Seq<char> {
    "globalThis.maypaper?.setFocused("@ + (if active {
        "true"@
    } else {
        "false"@
    }) + ");"@
}

/// The script that tells a page whether its window has the focus.
pub fn focus_script(active: bool) -> (script: String)
    ensures
        script@ == focus_script_text(active),
{
    let mut script = String::from_str("globalThis.maypaper?.setFocused(");
    script.append(if active { "true" } else { "false" });
    script.append(");");
    script
}

} // verus!
