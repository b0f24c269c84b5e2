//! User identity and hostname fragments: the prompt terminator symbol
//! and the choice between the hostname variable and the fallback file.

use vstd::prelude::*;
use crate::textops::str_eq;

verus! {

/// The prompt terminator: `#` for the privileged user, `$` otherwise.
pub open spec fn prompt_symbol_spec(user: Seq<char>) -> Seq<char> {
    if user == "root"@ {
        "#"@
    } else {
        "$"@
    }
}

/// Returns the prompt terminator symbol for `user`.
pub fn prompt_symbol(user: &str) -> (r: &'static str)
    ensures
        r@ == prompt_symbol_spec(user@),
{
    if str_eq(user, "root") {
        "#"
    } else {
        "$"
    }
}

/// The index of the first line feed in `s`, or `s.len()` if none.
pub open spec fn line_break(s: Seq<char>) -> int
    decreases s.len(),
{
    if s.len() == 0 {
        0
    } else if s[0] == '\n' {
        0
    } else {
        1 + line_break(s.skip(1))
    }
}

/// The first line of `s`: everything before the first line feed, with
/// one carriage return stripped from its end when the line feed exists.
pub open spec fn first_line_spec(s: Seq<char>) -> Seq<char> {
    let n = line_break(s);
    if n < s.len() && n > 0 && s[n - 1] == '\r' {
        s.take(n - 1)
    } else {
        s.take(n)
    }
}

/// A scan that saw no line feed before `i`, and one at `i` unless `i`
/// is the end, has found the break position.
proof fn lemma_line_break_at(s: Seq<char>, i: int)
    requires
        0 <= i <= s.len(),
        forall|j: int| 0 <= j < i ==> s[j] != '\n',
        i == s.len() || s[i] == '\n',
    ensures
        line_break(s) == i,
    decreases i,
{
    if s.len() == 0 {
    } else if s[0] == '\n' {
    } else {
        let t = s.skip(1);
        assert(forall|j: int| 0 <= j < i - 1 ==> t[j] == s[j + 1] && t[j] != '\n');
        assert(i - 1 == t.len() || t[i - 1] == '\n');
        lemma_line_break_at(t, i - 1);
    }
}

/// Returns the first line of `s`.
pub fn first_line(s: &str) -> (r: String)
    ensures
        r@ == first_line_spec(s@),
{
    let len = s.unicode_len();
    let mut i: usize = 0;
    while i < len
        invariant
            i <= len,
            len == s@.len(),
            forall|j: int| 0 <= j < i ==> s@[j] != '\n',
        decreases len - i,
    {
        let c = s.get_char(i);
        if c == '\n' {
            proof {
                lemma_line_break_at(s@, i as int);
            }
            let end: usize = if i > 0 && s.get_char(i - 1) == '\r' {
                i - 1
            } else {
                i
            };
            let r = s.substring_char(0, end);
            proof {
                assert(r@ =~= first_line_spec(s@));
            }
            return r.to_owned();
        }
        i += 1;
    }
    proof {
        lemma_line_break_at(s@, len as int);
        assert(s@.take(len as int) =~= s@);
    }
    s.to_owned()
}

/// The hostname to show: the environment's value when present; else
/// the first line of the fallback file's contents, provided the file
/// was readable and not empty; else nothing, which callers treat as a
/// fatal startup failure.
pub open spec fn hostname_spec(env_value: Option<Seq<char>>, file_contents: Option<Seq<char>>) -> Option<
    Seq<char>,
> {
    match env_value {
        Some(h) => Some(h),
        None => match file_contents {
            Some(c) => if c.len() > 0 {
                Some(first_line_spec(c))
            } else {
                None
            },
            None => None,
        },
    }
}

/// Picks the hostname from the environment value and the fallback
/// file's contents, as [`hostname_spec`] describes.
pub fn pick_hostname(env_value: Option<String>, file_contents: Option<String>) -> (r: Option<
    String,
>)
    ensures
        match hostname_spec(env_value.deep_view(), file_contents.deep_view()) {
            Some(h) => r matches Some(x) && x@ == h,
            None => r is None,
        },
{
    match env_value {
        Some(h) => Some(h),
        None => match file_contents {
            Some(c) => {
                if c.as_str().unicode_len() > 0 {
                    Some(first_line(c.as_str()))
                } else {
                    None
                }
            },
            None => None,
        },
    }
}

} // verus!
