//! Assembly of the prompt line from its fragments, in a fixed order
//! that never depends on when each fragment became available, and the
//! shell-evaluable output lines around it.

use vstd::prelude::*;
use crate::colors::{green, red, reset, term_green, term_red, term_reset};
use crate::identity::{prompt_symbol, prompt_symbol_spec};
use crate::numfmt::{append_dec_i32, dec_rep_int};
use crate::textops::append_graphemes;

verus! {

/// The exit-code indicator: the success color alone for a zero code,
/// the failure color with the code in parentheses otherwise.
pub open spec fn exit_fragment_spec(code: int) -> Seq<char> {
    if code == 0 {
        green()
    } else {
        red() + "("@ + dec_rep_int(code) + ")"@
    }
}

/// Builds the exit-code indicator fragment.
pub fn exit_fragment(code: i32) -> (r: String)
    ensures
        r@ == exit_fragment_spec(code as int),
        code == 0 ==> r@ == green(),
        code != 0 ==> r@ == red() + "("@ + dec_rep_int(code as int) + ")"@,
{
    if code == 0 {
        String::from_str(term_green())
    } else {
        let mut r = String::from_str(term_red());
        r.append("(");
        append_dec_i32(&mut r, code);
        r.append(")");
        proof {
            assert(r@ =~= red() + "("@ + dec_rep_int(code as int) + ")"@);
        }
        r
    }
}

/// The identity glyph between hostname and user.
pub open spec fn crab() -> Seq<char> {
    "\u{1F980}"@
}

/// The fragments of one prompt, gathered by the probes: everything the
/// final line is a function of, besides the color palette.
pub struct PromptInputs {
    /// The prior command's exit code.
    pub exit_code: i32,
    /// The resolved hostname.
    pub hostname: String,
    /// The user's name.
    pub user: String,
    /// The working-directory path, already resolved against home.
    pub resolved_path: String,
    /// The version-control status fragment; empty when there is no
    /// repository or its collector was skipped.
    pub status_fragment: String,
}

/// The whole prompt line: the exit indicator, then the bracketed
/// hostname, identity glyph and user, a color reset, the parenthesized
/// path and status fragment, and the prompt terminator chosen by the
/// user's name — in this order always.
pub open spec fn prompt_spec(
    code: int,
    host: Seq<char>,
    user: Seq<char>,
    path: Seq<char>,
    status: Seq<char>,
) -> Seq<char> {
    exit_fragment_spec(code) + "["@ + host + crab() + user + "]"@ + reset() + "("@ + path + status
        + ")"@ + prompt_symbol_spec(user)
}

/// Assembles the prompt line from its inputs, exactly as
/// [`prompt_spec`] describes.
pub fn assemble_prompt(inp: &PromptInputs) -> (r: String)
    ensures
        r@ == prompt_spec(
            inp.exit_code as int,
            inp.hostname@,
            inp.user@,
            inp.resolved_path@,
            inp.status_fragment@,
        ),
{
    let mut buf = exit_fragment(inp.exit_code);
    buf.append("[");
    buf.append(inp.hostname.as_str());
    append_graphemes(&mut buf, "\u{1F980}");
    buf.append(inp.user.as_str());
    buf.append("]");
    buf.append(term_reset());
    buf.append("(");
    buf.append(inp.resolved_path.as_str());
    buf.append(inp.status_fragment.as_str());
    buf.append(")");
    buf.append(prompt_symbol(inp.user.as_str()));
    proof {
        assert(buf@ =~= prompt_spec(
            inp.exit_code as int,
            inp.hostname@,
            inp.user@,
            inp.resolved_path@,
            inp.status_fragment@,
        ));
    }
    buf
}

/// The advisory line telling the shell to skip the status collector on
/// its next invocation.
pub open spec fn skip_signal_line_spec() -> Seq<char> {
    "export SKIP_GIT_STATUS=\"asd\";"@
}

/// Builds the advisory skip-signal line.
pub fn skip_signal_line() -> (r: String)
    ensures
        r@ == skip_signal_line_spec(),
{
    String::from_str("export SKIP_GIT_STATUS=\"asd\";")
}

/// The shell-evaluable assignment of the prompt line to the shell's
/// prompt variable.
pub open spec fn prompt_assignment_spec(prompt: Seq<char>) -> Seq<char> {
    "export PS1=\""@ + prompt + "\""@
}

/// Builds the prompt-variable assignment line.
pub fn prompt_assignment(prompt: &str) -> (r: String)
    ensures
        r@ == prompt_assignment_spec(prompt@),
{
    let mut r = String::from_str("export PS1=\"");
    r.append(prompt);
    r.append("\"");
    proof {
        assert(r@ =~= prompt_assignment_spec(prompt@));
    }
    r
}

/// Whether a status collection that took `elapsed_ms` milliseconds
/// exceeded the latency budget, so that the next invocation should be
/// told to skip it. Each invocation decides independently.
pub fn exceeded_latency_budget(elapsed_ms: u64) -> (r: bool)
    ensures
        r == (elapsed_ms > 500),
{
    elapsed_ms > 500
}

/// The lines to print, in order: when the status collection ran and
/// exceeded the latency budget, the advisory skip-signal line first,
/// then always the prompt assignment — and nothing else.
pub fn output_lines(inp: &PromptInputs, status_elapsed_ms: Option<u64>) -> (r: Vec<String>)
    ensures
        (match status_elapsed_ms {
            Some(t) => t > 500,
            None => false,
        }) ==> r@.len() == 2 && r@[0]@ == skip_signal_line_spec() && r@[1]@
            == prompt_assignment_spec(
            prompt_spec(
                inp.exit_code as int,
                inp.hostname@,
                inp.user@,
                inp.resolved_path@,
                inp.status_fragment@,
            ),
        ),
        (match status_elapsed_ms {
            Some(t) => t <= 500,
            None => true,
        }) ==> r@.len() == 1 && r@[0]@ == prompt_assignment_spec(
            prompt_spec(
                inp.exit_code as int,
                inp.hostname@,
                inp.user@,
                inp.resolved_path@,
                inp.status_fragment@,
            ),
        ),
{
    let prompt = assemble_prompt(inp);
    let mut lines: Vec<String> = Vec::new();
    let emit_skip = match status_elapsed_ms {
        Some(t) => exceeded_latency_budget(t),
        None => false,
    };
    if emit_skip {
        lines.push(skip_signal_line());
    }
    lines.push(prompt_assignment(prompt.as_str()));
    lines
}

} // verus!
