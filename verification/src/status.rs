//! The version-control status fragment.
//!
//! The collector that reads repository metadata from disk lives outside
//! this library; it reports what it saw as a [`RepoObservation`]: no
//! repository, a detached or headless checkout, or a branch together
//! with one [`StatusEntry`] per anomalous file in the working tree.
//! Everything derived from that observation — the dirty flags, the
//! color choice and the assembled fragment — is computed and verified
//! here.

use vstd::prelude::*;
use crate::colors::{green, orange, red, reset, term_green, term_orange, term_red, term_reset};

verus! {

/// The state flags of one entry of a repository status scan.
#[derive(Clone, Copy, PartialEq, Eq, Structural, Debug)]
pub struct StatusEntry {
    /// The file has merge conflicts.
    pub conflicted: bool,
    /// The file is modified in the working tree and not staged.
    pub wt_modified: bool,
    /// A modification of the file is staged in the index.
    pub index_modified: bool,
    /// The file is new in the working tree: untracked.
    pub wt_new: bool,
}

/// What a repository scan of the working directory observed.
pub enum RepoObservation {
    /// No enclosing repository was found.
    NoRepo,
    /// A repository whose checkout is on no named branch.
    Detached,
    /// A repository on the named branch, with one entry per file the
    /// status scan reported (untracked files included).
    Branch { name: String, entries: Vec<StatusEntry> },
}

/// Whether any entry has merge conflicts.
pub open spec fn any_conflicted(es: Seq<StatusEntry>) -> bool {
    exists|i: int| 0 <= i < es.len() && es[i].conflicted
}

/// Whether any entry is modified but not staged.
pub open spec fn any_wt_modified(es: Seq<StatusEntry>) -> bool {
    exists|i: int| 0 <= i < es.len() && es[i].wt_modified
}

/// Whether any entry has a staged modification.
pub open spec fn any_index_modified(es: Seq<StatusEntry>) -> bool {
    exists|i: int| 0 <= i < es.len() && es[i].index_modified
}

/// Whether any entry is untracked.
pub open spec fn any_wt_new(es: Seq<StatusEntry>) -> bool {
    exists|i: int| 0 <= i < es.len() && es[i].wt_new
}

/// The conflict glyph, shown when some entry has merge conflicts.
pub open spec fn conflict_glyph(es: Seq<StatusEntry>) -> Seq<char> {
    if any_conflicted(es) {
        "\u{274C}"@
    } else {
        Seq::empty()
    }
}

/// The edit glyph, shown when some entry is modified but unstaged.
pub open spec fn edit_glyph(es: Seq<StatusEntry>) -> Seq<char> {
    if any_wt_modified(es) {
        "\u{270F}\u{FE0F}"@
    } else {
        Seq::empty()
    }
}

/// The staged glyph, shown when some entry has a staged modification.
pub open spec fn staged_glyph(es: Seq<StatusEntry>) -> Seq<char> {
    if any_index_modified(es) {
        "\u{1F6A7}"@
    } else {
        Seq::empty()
    }
}

/// The untracked glyph, shown when some entry is untracked.
pub open spec fn untracked_glyph(es: Seq<StatusEntry>) -> Seq<char> {
    if any_wt_new(es) {
        "\u{2753}"@
    } else {
        Seq::empty()
    }
}

/// The branch fragment: the branch name in the warning color when the
/// status scan reported anything at all and in the clean color when it
/// reported nothing, followed by the glyphs of whichever flags hold,
/// always in the order conflict, edit, staged, untracked, the whole
/// between `|` bars.
pub open spec fn branch_fragment_spec(name: Seq<char>, es: Seq<StatusEntry>) -> Seq<char> {
    "|"@ + (if es.len() > 0 {
        orange()
    } else {
        green()
    }) + name + conflict_glyph(es) + edit_glyph(es) + staged_glyph(es) + untracked_glyph(es)
        + reset() + "|"@
}

/// The detached-head fragment: `NO BRANCH` in the failure color,
/// between `|` bars, with no dirty flags computed.
pub open spec fn detached_fragment_spec() -> Seq<char> {
    "|"@ + red() + "NO BRANCH"@ + reset() + "|"@
}

/// The status fragment for a whole observation: empty when there is no
/// repository, so that the prompt is assembled without a status block.
pub open spec fn status_fragment_spec(obs: &RepoObservation) -> Seq<char> {
    match obs {
        RepoObservation::NoRepo => Seq::empty(),
        RepoObservation::Detached => detached_fragment_spec(),
        RepoObservation::Branch { name, entries } => branch_fragment_spec(name@, entries@),
    }
}

/// The four dirty flags of a scan, each true exactly when some entry
/// carries the matching state.
pub fn scan_flags(entries: &Vec<StatusEntry>) -> (r: (bool, bool, bool, bool))
    ensures
        r.0 == any_conflicted(entries@),
        r.1 == any_wt_modified(entries@),
        r.2 == any_index_modified(entries@),
        r.3 == any_wt_new(entries@),
{
    let mut conflicted = false;
    let mut wt_modified = false;
    let mut index_modified = false;
    let mut wt_new = false;
    let mut i: usize = 0;
    while i < entries.len()
        invariant
            i <= entries@.len(),
            conflicted == any_conflicted(entries@.take(i as int)),
            wt_modified == any_wt_modified(entries@.take(i as int)),
            index_modified == any_index_modified(entries@.take(i as int)),
            wt_new == any_wt_new(entries@.take(i as int)),
        decreases entries@.len() - i,
    {
        let e = entries[i];
        proof {
            let pre = entries@.take(i as int);
            let ext = entries@.take(i + 1);
            assert(forall|j: int| 0 <= j < i ==> ext[j] == pre[j]);
            assert(ext[i as int] == entries@[i as int]);
            assert(any_conflicted(ext) == (any_conflicted(pre) || entries@[i as int].conflicted));
            assert(any_wt_modified(ext) == (any_wt_modified(pre)
                || entries@[i as int].wt_modified));
            assert(any_index_modified(ext) == (any_index_modified(pre)
                || entries@[i as int].index_modified));
            assert(any_wt_new(ext) == (any_wt_new(pre) || entries@[i as int].wt_new));
        }
        conflicted = conflicted || e.conflicted;
        wt_modified = wt_modified || e.wt_modified;
        index_modified = index_modified || e.index_modified;
        wt_new = wt_new || e.wt_new;
        i += 1;
    }
    proof {
        assert(entries@.take(entries@.len() as int) =~= entries@);
    }
    (conflicted, wt_modified, index_modified, wt_new)
}

/// Builds the status fragment for an observation, exactly as
/// [`status_fragment_spec`] describes.
pub fn status_fragment(obs: &RepoObservation) -> (r: String)
    ensures
        r@ == status_fragment_spec(obs),
{
    match obs {
        RepoObservation::NoRepo => {
            let r = String::new();
            proof {
                assert(r@ =~= status_fragment_spec(obs));
            }
            r
        },
        RepoObservation::Detached => {
            let mut r = String::from_str("|");
            r.append(term_red());
            r.append("NO BRANCH");
            r.append(term_reset());
            r.append("|");
            proof {
                assert(r@ =~= detached_fragment_spec());
            }
            r
        },
        RepoObservation::Branch { name, entries } => {
            let (conflicted, wt_modified, index_modified, wt_new) = scan_flags(entries);
            let mut r = String::from_str("|");
            if entries.len() > 0 {
                r.append(term_orange());
            } else {
                r.append(term_green());
            }
            r.append(name.as_str());
            if conflicted {
                r.append("\u{274C}");
            }
            if wt_modified {
                r.append("\u{270F}\u{FE0F}");
            }
            if index_modified {
                r.append("\u{1F6A7}");
            }
            if wt_new {
                r.append("\u{2753}");
            }
            r.append(term_reset());
            r.append("|");
            proof {
                assert(r@ =~= branch_fragment_spec(name@, entries@));
            }
            r
        },
    }
}

/// With an empty status scan the fragment shows the branch name in the
/// clean color and carries no glyph marker: it is exactly the bars,
/// the clean color, the name and the color reset.
pub proof fn lemma_clean_fragment(name: Seq<char>, es: Seq<StatusEntry>)
    requires
        es.len() == 0,
    ensures
        branch_fragment_spec(name, es) == "|"@ + green() + name + reset() + "|"@,
{
    assert(branch_fragment_spec(name, es) =~= "|"@ + green() + name + reset() + "|"@);
}

/// With a staged and an unstaged modification and an untracked file,
/// and nothing conflicted, the fragment carries exactly the edit,
/// staged and untracked glyphs, in that order, around the branch name
/// in the warning color — and no conflict glyph.
pub proof fn lemma_mixed_fragment(name: Seq<char>, es: Seq<StatusEntry>)
    requires
        any_wt_modified(es),
        any_index_modified(es),
        any_wt_new(es),
        !any_conflicted(es),
    ensures
        branch_fragment_spec(name, es) == "|"@ + orange() + name + "\u{270F}\u{FE0F}"@
            + "\u{1F6A7}"@ + "\u{2753}"@ + reset() + "|"@,
{
    assert(es.len() > 0);
    assert(branch_fragment_spec(name, es) =~= "|"@ + orange() + name + "\u{270F}\u{FE0F}"@
        + "\u{1F6A7}"@ + "\u{2753}"@ + reset() + "|"@);
}

/// A detached or headless checkout yields the `NO BRANCH` fragment in
/// the failure color; no dirty flag enters the result.
pub proof fn lemma_detached_fragment(obs: &RepoObservation)
    requires
        obs is Detached,
    ensures
        status_fragment_spec(obs) == "|"@ + red() + "NO BRANCH"@ + reset() + "|"@,
{
    assert(status_fragment_spec(obs) =~= "|"@ + red() + "NO BRANCH"@ + reset() + "|"@);
}

} // verus!
