//! Small text operations on which the pages and the API clients are built.
use vstd::prelude::*;
use vstd::string::*;

verus! {

/// `s` with every trailing `/` removed.
pub open spec fn trim_trailing_slashes(s: Seq<char>) -> Seq<char>
    decreases s.len(),
{
    if s.len() > 0 && s.last() == '/' {
        trim_trailing_slashes(s.drop_last())
    } else {
        s
    }
}

/// Whether `needle` occurs in `hay` as a contiguous piece.
pub open spec fn contains_text(hay: Seq<char>, needle: Seq<char>) -> bool {
    exists|i: int| 0 <= i && i + needle.len() <= hay.len() && #[trigger] hay.subrange(i, i + needle.len()) == needle
}

/// A piece of a piece of `hay` is a piece of `hay`.
pub proof fn lemma_contains_trans(hay: Seq<char>, mid: Seq<char>, needle: Seq<char>)
    requires
        contains_text(hay, mid),
        contains_text(mid, needle),
    ensures
        contains_text(hay, needle),
{
    let i = choose|i: int| 0 <= i && i + mid.len() <= hay.len() && #[trigger] hay.subrange(i, i + mid.len()) == mid;
    let j = choose|j: int| 0 <= j && j + needle.len() <= mid.len() && #[trigger] mid.subrange(j, j + needle.len()) == needle;
    assert(hay.subrange(i + j, i + j + needle.len()) =~= mid.subrange(j, j + needle.len()));
}

/// `b` occurs in `a + b + c`.
pub proof fn lemma_contains_middle(a: Seq<char>, b: Seq<char>, c: Seq<char>)
    ensures
        contains_text(a + b + c, b),
{
    assert((a + b + c).subrange(a.len() as int, (a.len() + b.len()) as int) =~= b);
}

/// Removing trailing slashes keeps a prefix of the text, leaves no `/` at its end,
/// and drops nothing but `/`.
pub proof fn lemma_trim_shape(s: Seq<char>)
    ensures
        trim_trailing_slashes(s).len() <= s.len(),
        trim_trailing_slashes(s) == s.subrange(0, trim_trailing_slashes(s).len() as int),
        trim_trailing_slashes(s).len() > 0 ==> trim_trailing_slashes(s).last() != '/',
        forall|i: int| trim_trailing_slashes(s).len() <= i < s.len() ==> s[i] == '/',
    decreases s.len(),
{
    if s.len() > 0 && s.last() == '/' {
        let t = trim_trailing_slashes(s.drop_last());
        lemma_trim_shape(s.drop_last());
        assert forall|i: int| t.len() <= i < s.len() implies s[i] == '/' by {
            if i < s.len() - 1 {
                assert(s[i] == s.drop_last()[i]);
            }
        }
        assert(t =~= s.subrange(0, t.len() as int));
    } else {
        assert(s == s.subrange(0, s.len() as int));
    }
}

/// Trimming a text that already ends in something other than `/` leaves it as it is.
pub proof fn lemma_trim_no_trailing_slash(s: Seq<char>)
    requires
        s.len() == 0 || s.last() != '/',
    ensures
        trim_trailing_slashes(s) == s,
{
}

/// Removing trailing slashes twice gives what removing them once gives.
pub proof fn lemma_trim_idempotent(s: Seq<char>)
    ensures
        trim_trailing_slashes(trim_trailing_slashes(s)) == trim_trailing_slashes(s),
{
    lemma_trim_shape(s);
    lemma_trim_no_trailing_slash(trim_trailing_slashes(s));
}

/// A `/` added at the end of a text does not change what trimming gives.
pub proof fn lemma_trim_ignores_added_slash(s: Seq<char>)
    ensures
        trim_trailing_slashes(s.push('/')) == trim_trailing_slashes(s),
{
    assert(s.push('/').drop_last() =~= s);
}

/// A prefix of `s` that `trim` already reached trims to the same text as `s`.
proof fn lemma_trim_prefix_step(s: Seq<char>, end: int)
    requires
        0 < end <= s.len(),
        s[end - 1] == '/',
    ensures
        trim_trailing_slashes(s.subrange(0, end)) == trim_trailing_slashes(s.subrange(0, end - 1)),
{
    assert(s.subrange(0, end).drop_last() =~= s.subrange(0, end - 1));
}

/// The text `s` without its trailing `/` characters, as `str::trim_end_matches('/')` gives it.
pub fn trim_end_slashes(s: &str) -> (t: String)
    ensures
        t@ == trim_trailing_slashes(s@),
{
    let n = s.unicode_len();
    let mut end: usize = n;
    assert(s@.subrange(0, n as int) =~= s@);
    while end > 0 && s.get_char(end - 1) == '/'
        invariant
            end <= n,
            n == s@.len(),
            trim_trailing_slashes(s@.subrange(0, end as int)) == trim_trailing_slashes(s@),
        decreases end,
    {
        proof {
            lemma_trim_prefix_step(s@, end as int);
        }
        end = end - 1;
    }
    let kept = s.substring_char(0, end);
    proof {
        let p = s@.subrange(0, end as int);
        if p.len() > 0 {
            assert(p.last() == s@[end - 1]);
        }
        lemma_trim_no_trailing_slash(p);
    }
    String::from_str(kept)
}

/// Whether the two texts are the same.
pub fn same_text(a: &str, b: &str) -> (same: bool)
    ensures
        same == (a@ == b@),
{
    let n = a.unicode_len();
    let m = b.unicode_len();
    if n != m {
        return false;
    }
    let mut i: usize = 0;
    while i < n
        invariant
            i <= n,
            n == a@.len(),
            m == b@.len(),
            n == m,
            forall|j: int| 0 <= j < i ==> a@[j] == b@[j],
        decreases n - i,
    {
        if a.get_char(i) != b.get_char(i) {
            return false;
        }
        i = i + 1;
    }
    assert(a@ =~= b@);
    true
}

} // verus!
