//! Conversion of document text between line-ending conventions.
use vstd::prelude::*;

use crate::text::{chars_of, string_of};

verus! {

/// The line-ending convention a text was written in.
#[derive(Debug, Clone, Copy, PartialEq, Eq, PartialOrd, Ord, Hash, Structural)]
pub enum LineEndings {
    Dos,
    Unix,
}

/// `s` holds a carriage return immediately followed by a line feed.
pub open spec fn has_crlf(s: Seq<char>) -> bool {
    exists|i: int| 0 <= i < s.len() - 1 && s[i] == '\r' && #[trigger] s[i + 1] == '\n'
}

/// Position `i` of `s` holds a carriage return that begins a CRLF pair.
pub open spec fn cr_of_crlf(s: Seq<char>, i: int) -> bool {
    0 <= i && i + 1 < s.len() && s[i] == '\r' && s[i + 1] == '\n'
}

/// The first `k` characters of `s`, leaving out every carriage return that
/// begins a CRLF pair of `s`.
pub open spec fn kept_prefix(s: Seq<char>, k: int) -> Seq<char>
    decreases k,
{
    if k <= 0 {
        Seq::empty()
    } else if cr_of_crlf(s, k - 1) {
        kept_prefix(s, k - 1)
    } else {
        kept_prefix(s, k - 1).push(s[k - 1])
    }
}

/// `s` with each CRLF pair replaced by a single line feed; lone carriage
/// returns and lone line feeds stay.
pub open spec fn collapse_crlf(s: Seq<char>) -> Seq<char> {
    kept_prefix(s, s.len() as int)
}

/// `t` with each line feed written as a CRLF pair.
pub open spec fn expand_lf(t: Seq<char>) -> Seq<char>
    decreases t.len(),
{
    if t.len() == 0 {
        Seq::empty()
    } else if t.last() == '\n' {
        expand_lf(t.drop_last()) + seq!['\r', '\n']
    } else {
        expand_lf(t.drop_last()).push(t.last())
    }
}

/// The text that a normalised `t` stands for under the convention `e`.
pub open spec fn restore(t: Seq<char>, e: LineEndings) -> Seq<char> {
    match e {
        LineEndings::Unix => t,
        LineEndings::Dos => expand_lf(t),
    }
}

/// The convention that normalising `s` records.
pub open spec fn endings_of(s: Seq<char>) -> LineEndings {
    if has_crlf(s) {
        LineEndings::Dos
    } else {
        LineEndings::Unix
    }
}

/// Every line feed of `s` is preceded by a carriage return.
pub open spec fn only_crlf_breaks(s: Seq<char>) -> bool {
    forall|i: int| 0 <= i < s.len() && #[trigger] s[i] == '\n' ==> i > 0 && s[i - 1] == '\r'
}

/// Whether `s` holds a CRLF pair, found by a single pass over its characters.
fn contains_crlf(s: &str) -> (r: bool)
    ensures
        r == has_crlf(s@),
{
    broadcast use vstd::string::axiom_spec_iter;

    let mut prev_cr = false;
    let mut found = false;
    for c in it: s.chars()
        invariant
            it.seq() == s@,
            prev_cr == (it.index() > 0 && s@[it.index() - 1] == '\r'),
            found == (exists|i: int|
                0 <= i < it.index() - 1 && s@[i] == '\r' && #[trigger] s@[i + 1] == '\n'),
    {
        proof {
            let k = it.index();
            if !found && prev_cr && c == '\n' {
                assert(s@[(k - 1) + 1] == '\n');
            }
        }
        if prev_cr && c == '\n' {
            found = true;
        }
        prev_cr = c == '\r';
    }
    found
}

impl LineEndings {
    /// Normalises `src` to line feeds and records which convention it used.
    /// Text without a CRLF pair is handed back as it came, with `Unix`.
    pub fn normalize(src: String) -> (r: (String, LineEndings))
        ensures
            r.1 == endings_of(src@),
            r.0@ == collapse_crlf(src@),
            r.1 == LineEndings::Unix ==> r.0 == src,
    {
        if !contains_crlf(src.as_str()) {
            proof {
                lemma_no_crlf_collapse_is_identity(src@, src@.len() as int);
            }
            return (src, LineEndings::Unix);
        }
        let mut buf = chars_of(src.as_str());
        let ghost orig = buf@;
        let n = buf.len();
        let mut w: usize = 0;
        let mut r: usize = 0;
        while r < n
            invariant
                w <= r <= n,
                buf.len() == n,
                orig.len() == n,
                buf@.take(w as int) == kept_prefix(orig, r as int),
                buf@.subrange(r as int, n as int) == orig.subrange(r as int, n as int),
            decreases n - r,
        {
            let c = buf[r];
            assert(c == orig[r as int]) by {
                assert(buf@.subrange(r as int, n as int)[0] == buf@[r as int]);
            }
            let drop = c == '\r' && r + 1 < n && buf[r + 1] == '\n';
            if r + 1 < n {
                assert(buf@[r + 1] == orig[r + 1]) by {
                    assert(buf@.subrange(r as int, n as int)[1] == buf@[r + 1]);
                }
            }
            assert(drop == cr_of_crlf(orig, r as int));
            let ghost before = buf@;
            if !drop {
                buf.set(w, c);
                assert(buf@.take(w + 1) =~= kept_prefix(orig, r as int).push(c));
                w = w + 1;
            }
            proof {
                assert forall|j: int| r + 1 <= j < n implies buf@[j] == orig[j] by {
                    assert(before.subrange(r as int, n as int)[j - r] == orig.subrange(
                        r as int,
                        n as int,
                    )[j - r]);
                }
            }
            r = r + 1;
            assert(buf@.subrange(r as int, n as int) =~= orig.subrange(r as int, n as int));
        }
        buf.truncate(w);
        assert(buf@ =~= kept_prefix(orig, n as int));
        (string_of(&buf), LineEndings::Dos)
    }
}

/// Without a CRLF pair, nothing is left out.
proof fn lemma_no_crlf_collapse_is_identity(s: Seq<char>, k: int)
    requires
        !has_crlf(s),
        0 <= k <= s.len(),
    ensures
        kept_prefix(s, k) == s.take(k),
    decreases k,
{
    if k > 0 {
        lemma_no_crlf_collapse_is_identity(s, k - 1);
        if cr_of_crlf(s, k - 1) {
            assert(s[(k - 1) + 1] == '\n');
        }
        assert(s.take(k - 1).push(s[k - 1]) =~= s.take(k));
    }
}

/// Expanding what was kept of the first `k` characters gives them back,
/// but for a trailing carriage return that begins a CRLF pair.
proof fn lemma_expand_kept_prefix(s: Seq<char>, k: int)
    requires
        only_crlf_breaks(s),
        0 <= k <= s.len(),
    ensures
        expand_lf(kept_prefix(s, k)) == (if cr_of_crlf(s, k - 1) {
            s.take(k - 1)
        } else {
            s.take(k)
        }),
    decreases k,
{
    if k > 0 {
        lemma_expand_kept_prefix(s, k - 1);
        let prev = kept_prefix(s, k - 1);
        let c = s[k - 1];
        if !cr_of_crlf(s, k - 1) {
            let t = prev.push(c);
            assert(t.drop_last() =~= prev);
            if c == '\n' {
                assert(k - 1 > 0 && s[k - 2] == '\r');
                assert(s.take(k - 2) + seq!['\r', '\n'] =~= s.take(k));
            } else {
                assert(s.take(k - 1).push(c) =~= s.take(k));
            }
        }
    }
}

/// Normalising and then expanding under the recorded convention gives the
/// text it started from, for any text whose breaks are all Unix or all DOS.
/// A text that mixes CRLF pairs with lone line feeds is left out: its lone
/// line feeds would come back as CRLF pairs.
pub proof fn lemma_normalize_round_trip(s: Seq<char>)
    requires
        has_crlf(s) ==> only_crlf_breaks(s),
    ensures
        restore(collapse_crlf(s), endings_of(s)) == s,
{
    if has_crlf(s) {
        lemma_expand_kept_prefix(s, s.len() as int);
    } else {
        lemma_no_crlf_collapse_is_identity(s, s.len() as int);
    }
    assert(s.take(s.len() as int) =~= s);
}

} // verus!
