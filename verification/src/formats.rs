//! Terminal formatting helpers for the platform listing.

use vstd::prelude::*;

verus! {

/// Renders a boolean as colored terminal text: green for `true`, red for
/// `false`, each followed by the color-reset escape.
pub fn format_bool(b: bool) -> (r: String)
    ensures
        b ==> r@ == "\x1b[38;2;0;255;0mtrue\x1b[m"@,
        !b ==> r@ == "\x1b[38;2;255;0;0mfalse\x1b[m"@,
{
    if b {
        "\x1b[38;2;0;255;0mtrue\x1b[m".to_owned()
    } else {
        "\x1b[38;2;255;0;0mfalse\x1b[m".to_owned()
    }
}

} // verus!
