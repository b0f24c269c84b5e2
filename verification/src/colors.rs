//! Terminal color escape sequences, quoted for a shell prompt variable.
//!
//! Each sequence is wrapped in `\[` and `\]` so that the shell does not
//! count the escape bytes toward the visible prompt width.

use vstd::prelude::*;

verus! {

/// The "success" / "clean" color: green.
pub open spec fn green() -> Seq<char> {
    "\\[\\033[32m\\]"@
}

/// The "failure" / "error" color: red.
pub open spec fn red() -> Seq<char> {
    "\\[\\033[31m\\]"@
}

/// The "warning" color for a dirty repository: orange.
pub open spec fn orange() -> Seq<char> {
    "\\[\\e[38;5;208m\\]"@
}

/// Resets the terminal color to the default.
pub open spec fn reset() -> Seq<char> {
    "\\[\\033[0m\\]"@
}

pub fn term_green() -> (r: &'static str)
    ensures
        r@ == green(),
{
    "\\[\\033[32m\\]"
}

pub fn term_red() -> (r: &'static str)
    ensures
        r@ == red(),
{
    "\\[\\033[31m\\]"
}

pub fn term_orange() -> (r: &'static str)
    ensures
        r@ == orange(),
{
    "\\[\\e[38;5;208m\\]"
}

pub fn term_reset() -> (r: &'static str)
    ensures
        r@ == reset(),
{
    "\\[\\033[0m\\]"
}

} // verus!
