//! Whitespace, and the test for a text that holds nothing else.

use vstd::prelude::*;

verus! {

/// The scalar values that carry Unicode's `White_Space` property.
pub open spec fn is_whitespace(c: char) -> bool {
    ||| '\u{9}' <= c <= '\u{D}'
    ||| c == ' '
    ||| c == '\u{85}'
    ||| c == '\u{A0}'
    ||| c == '\u{1680}'
    ||| '\u{2000}' <= c <= '\u{200A}'
    ||| c == '\u{2028}'
    ||| c == '\u{2029}'
    ||| c == '\u{202F}'
    ||| c == '\u{205F}'
    ||| c == '\u{3000}'
}

/// Nothing but whitespace stands in `s`; the empty text counts.
pub open spec fn all_whitespace(s: Seq<char>) -> bool {
    forall|i: int| 0 <= i < s.len() ==> is_whitespace(#[trigger] s[i])
}

/// `t` is the stretch of `s` from `start` to `end`, with only whitespace
/// before and after it, and neither starts nor ends with whitespace.
pub open spec fn trims_at(t: Seq<char>, s: Seq<char>, start: int, end: int) -> bool {
    &&& 0 <= start <= end <= s.len()
    &&& t == s.subrange(start, end)
    &&& forall|k: int| 0 <= k < start ==> is_whitespace(#[trigger] s[k])
    &&& forall|k: int| end <= k < s.len() ==> is_whitespace(#[trigger] s[k])
    &&& start < end ==> !is_whitespace(s[start]) && !is_whitespace(s[end - 1])
}

/// `t` is `s` without its leading and its trailing whitespace.
pub open spec fn is_trim_of(t: Seq<char>, s: Seq<char>) -> bool {
    exists|start: int, end: int| trims_at(t, s, start, end)
}

/// `str::trim` of the standard library. Trusted: the result is the input with
/// its leading and trailing whitespace removed, where whitespace is what
/// Unicode's `White_Space` property marks.
#[verifier::external_body]
fn trim(s: &str) -> (t: &str)
    ensures
        is_trim_of(t@, s@),
{
    s.trim()
}

/// Trimming leaves nothing exactly of the texts that hold nothing but
/// whitespace.
pub proof fn lemma_trim_is_empty_iff_all_whitespace(t: Seq<char>, s: Seq<char>)
    requires
        is_trim_of(t, s),
    ensures
        t.len() == 0 <==> all_whitespace(s),
{
    let (start, end) = choose|start: int, end: int| trims_at(t, s, start, end);
    if t.len() > 0 {
        assert(!is_whitespace(s[start]));
    }
}

/// Whether `s` is empty once its leading and trailing whitespace is removed,
/// which is to say that it holds nothing but whitespace.
pub fn is_blank(s: &str) -> (blank: bool)
    ensures
        blank == all_whitespace(s@),
{
    let rest = trim(s);
    proof {
        lemma_trim_is_empty_iff_all_whitespace(rest@, s@);
    }
    rest.is_empty()
}

} // verus!
