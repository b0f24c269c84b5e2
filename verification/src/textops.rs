//! Character-level text operations used by the fragment builders:
//! equality and prefix tests on string slices, extraction of a first
//! line, and concatenation of grapheme clusters.

use vstd::prelude::*;

verus! {

/// The concatenation, in order, of a sequence of character sequences.
pub open spec fn concat_all(ss: Seq<Seq<char>>) -> Seq<char>
    decreases ss.len(),
{
    if ss.len() == 0 {
        Seq::empty()
    } else {
        concat_all(ss.drop_last()) + ss.last()
    }
}

/// Relies on unicode_segmentation's `UnicodeSegmentation::graphemes`:
/// the extended grapheme clusters of a string are substrings of it
/// that, concatenated in order, give the string back.
#[verifier::external_body]
pub fn grapheme_clusters(s: &str) -> (r: Vec<String>)
    ensures
        concat_all(r.deep_view()) == s@,
{
    unicode_segmentation::UnicodeSegmentation::graphemes(s, true)
        .map(|g| g.to_owned())
        .collect()
}

/// Appends every grapheme cluster of `s` to `buf`; since the clusters
/// partition `s`, this appends exactly `s` itself.
pub fn append_graphemes(buf: &mut String, s: &str)
    ensures
        final(buf)@ == old(buf)@ + s@,
{
    let glyphs = grapheme_clusters(s);
    let ghost base = buf@;
    let mut i: usize = 0;
    while i < glyphs.len()
        invariant
            i <= glyphs.len(),
            concat_all(glyphs.deep_view()) == s@,
            buf@ == base + concat_all(glyphs.deep_view().take(i as int)),
        decreases glyphs.len() - i,
    {
        buf.append(glyphs[i].as_str());
        proof {
            let gs = glyphs.deep_view();
            assert(gs.take(i + 1).drop_last() =~= gs.take(i as int));
            assert(gs.take(i + 1).last() == gs[i as int]);
            assert(buf@ =~= base + concat_all(gs.take(i + 1)));
        }
        i += 1;
    }
    proof {
        assert(glyphs.deep_view().take(glyphs.deep_view().len() as int) =~= glyphs.deep_view());
    }
}

/// Character-for-character string equality.
pub fn str_eq(a: &str, b: &str) -> (r: bool)
    ensures
        r == (a@ == b@),
{
    let alen = a.unicode_len();
    let blen = b.unicode_len();
    if alen != blen {
        return false;
    }
    let mut i: usize = 0;
    while i < alen
        invariant
            i <= alen,
            alen == a@.len(),
            blen == b@.len(),
            alen == blen,
            forall|j: int| 0 <= j < i ==> a@[j] == b@[j],
        decreases alen - i,
    {
        if a.get_char(i) != b.get_char(i) {
            return false;
        }
        i += 1;
    }
    proof {
        assert(a@ =~= b@);
    }
    true
}

/// Whether `p` is a prefix of `s`, character by character.
pub fn str_is_prefix(p: &str, s: &str) -> (r: bool)
    ensures
        r == p@.is_prefix_of(s@),
{
    let plen = p.unicode_len();
    let slen = s.unicode_len();
    if plen > slen {
        return false;
    }
    let mut i: usize = 0;
    while i < plen
        invariant
            i <= plen,
            plen == p@.len(),
            slen == s@.len(),
            plen <= slen,
            forall|j: int| 0 <= j < i ==> p@[j] == s@[j],
        decreases plen - i,
    {
        if p.get_char(i) != s.get_char(i) {
            proof {
                assert(s@.subrange(0, plen as int)[i as int] == s@[i as int]);
            }
            return false;
        }
        i += 1;
    }
    proof {
        assert(p@ =~= s@.subrange(0, p@.len() as int));
    }
    true
}

} // verus!
