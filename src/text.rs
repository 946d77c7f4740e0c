use vstd::prelude::*;

verus! {

/// `r` is the part of `s` after its last `/`: a suffix of `s` without `/`
/// that is either all of `s` or preceded by a `/`.
pub open spec fn is_last_segment(s: Seq<char>, r: Seq<char>) -> bool {
    &&& r.len() <= s.len()
    &&& r == s.subrange(s.len() - r.len(), s.len() as int)
    &&& forall|k: int| 0 <= k < r.len() ==> r[k] != '/'
    &&& (r.len() == s.len() || s[s.len() - r.len() - 1] == '/')
}

/// The part of `s` after its last `/`; all of `s` when it holds none.
pub fn last_segment(s: &str) -> (r: String)
    ensures
        is_last_segment(s@, r@),
{
    let n = s.unicode_len();
    let mut i: usize = n;
    while i > 0
        invariant
            n == s@.len(),
            i <= n,
            forall|k: int| i <= k < n ==> s@[k] != '/',
        ensures
            i <= n,
            forall|k: int| i <= k < n ==> s@[k] != '/',
            i == 0 || s@[i - 1] == '/',
        decreases i,
    {
        if s.get_char(i - 1) == '/' {
            break;
        }
        i = i - 1;
    }
    let r = s.substring_char(i, n).to_owned();
    assert(r@ == s@.subrange(i as int, n as int));
    assert(forall|k: int| 0 <= k < r@.len() ==> r@[k] == s@[i + k]);
    r
}

/// The white-space characters: those with the Unicode `White_Space`
/// property.
pub open spec fn is_white_space(c: char) -> bool {
    ||| ('\u{9}' <= c && c <= '\u{d}')
    ||| c == ' '
    ||| c == '\u{85}'
    ||| c == '\u{a0}'
    ||| c == '\u{1680}'
    ||| ('\u{2000}' <= c && c <= '\u{200a}')
    ||| c == '\u{2028}'
    ||| c == '\u{2029}'
    ||| c == '\u{202f}'
    ||| c == '\u{205f}'
    ||| c == '\u{3000}'
}

pub fn white_space(c: char) -> (r: bool)
    ensures
        r == is_white_space(c),
{
    ('\u{9}' <= c && c <= '\u{d}') || c == ' ' || c == '\u{85}' || c == '\u{a0}' || c
        == '\u{1680}' || ('\u{2000}' <= c && c <= '\u{200a}') || c == '\u{2028}' || c
        == '\u{2029}' || c == '\u{202f}' || c == '\u{205f}' || c == '\u{3000}'
}

/// `r` is `s` without its leading and trailing runs of white space: the
/// part `s[i..j]` whose outside is all white space and whose ends are not.
pub open spec fn is_trimmed(s: Seq<char>, r: Seq<char>) -> bool {
    exists|i: int, j: int|
        #![trigger s.subrange(i, j)]
        0 <= i <= j <= s.len() && r == s.subrange(i, j) && (forall|k: int|
            0 <= k < i ==> is_white_space(#[trigger] s[k])) && (forall|k: int|
            j <= k < s.len() ==> is_white_space(#[trigger] s[k])) && (i == j || (
        !is_white_space(s[i]) && !is_white_space(s[j - 1])))
}

/// `s` without its leading and trailing white space.
pub fn trim(s: &str) -> (r: String)
    ensures
        is_trimmed(s@, r@),
{
    let n = s.unicode_len();
    let mut i: usize = 0;
    while i < n
        invariant
            n == s@.len(),
            i <= n,
            forall|k: int| 0 <= k < i ==> is_white_space(#[trigger] s@[k]),
        ensures
            i <= n,
            forall|k: int| 0 <= k < i ==> is_white_space(#[trigger] s@[k]),
            i == n || !is_white_space(s@[i as int]),
        decreases n - i,
    {
        if !white_space(s.get_char(i)) {
            break;
        }
        i = i + 1;
    }
    let mut j: usize = n;
    while j > i
        invariant
            n == s@.len(),
            i <= j <= n,
            forall|k: int| j <= k < n ==> is_white_space(#[trigger] s@[k]),
        ensures
            i <= j <= n,
            forall|k: int| j <= k < n ==> is_white_space(#[trigger] s@[k]),
            j == i || !is_white_space(s@[j - 1]),
        decreases j,
    {
        if !white_space(s.get_char(j - 1)) {
            break;
        }
        j = j - 1;
    }
    let r = s.substring_char(i, j).to_owned();
    assert(r@ == s@.subrange(i as int, j as int));
    r
}

} // verus!
