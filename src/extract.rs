//! Finding absolute HTTP and HTTPS URLs in free text.
//!
//! A URL starts at `http://` or `https://`, needs at least one character
//! after the scheme, and runs to the next whitespace character. A single
//! trailing punctuation character (`. ! , ; ? ' "`) is left out, so that a
//! URL that ends a sentence comes out clean. Scanning resumes after the
//! whitespace-free run that held the URL.
use vstd::prelude::*;
use crate::chars::{is_space, space, chars_of, string_of};

verus! {

pub open spec fn is_trailing_punct(c: char) -> bool {
    c == '.' || c == '!' || c == ',' || c == ';' || c == '?' || c == '\'' || c == '"'
}

/// Length of the scheme prefix (`http://` or `https://`) at `i`, or 0.
pub open spec fn scheme_len(s: Seq<char>, i: int) -> int {
    if 0 <= i && i + 7 <= s.len() && s[i] == 'h' && s[i + 1] == 't' && s[i + 2] == 't'
        && s[i + 3] == 'p' && s[i + 4] == ':' && s[i + 5] == '/' && s[i + 6] == '/' {
        7
    } else if 0 <= i && i + 8 <= s.len() && s[i] == 'h' && s[i + 1] == 't' && s[i + 2] == 't'
        && s[i + 3] == 'p' && s[i + 4] == 's' && s[i + 5] == ':' && s[i + 6] == '/'
        && s[i + 7] == '/' {
        8
    } else {
        0
    }
}

/// The first index at or after `j` that holds whitespace, or the length.
pub open spec fn run_end(s: Seq<char>, j: nat) -> nat
    decreases s.len() - j,
{
    if j >= s.len() {
        s.len()
    } else if is_space(s[j as int]) {
        j
    } else {
        run_end(s, j + 1)
    }
}

/// Where a URL whose body starts at `body` and whose run ends at `e` stops.
pub open spec fn url_end(s: Seq<char>, body: nat, e: nat) -> nat {
    if e >= body + 2 && is_trailing_punct(s[e - 1]) {
        (e - 1) as nat
    } else {
        e
    }
}

/// A URL starts at `i`.
pub open spec fn url_starts_at(s: Seq<char>, i: nat) -> bool {
    let k = scheme_len(s, i as int);
    k > 0 && i + k < s.len() && !is_space(s[i + k as int])
}

/// The `[start, end)` spans of the URLs found from position `i` on.
pub open spec fn spans_from(s: Seq<char>, i: nat) -> Seq<(nat, nat)>
    decreases s.len() - i via spans_from_decreases
{
    if i >= s.len() {
        Seq::empty()
    } else if url_starts_at(s, i) {
        let body = (i + scheme_len(s, i as int)) as nat;
        let e = run_end(s, body);
        seq![(i, url_end(s, body, e))] + spans_from(s, e)
    } else {
        spans_from(s, i + 1)
    }
}

#[via_fn]
proof fn spans_from_decreases(s: Seq<char>, i: nat) {
    if i < s.len() && url_starts_at(s, i) {
        let body = (i + scheme_len(s, i as int)) as nat;
        lemma_run_end(s, body);
    }
}

/// The spans of all URLs in `s`, in order of appearance.
pub open spec fn url_spans(s: Seq<char>) -> Seq<(nat, nat)> {
    spans_from(s, 0)
}

/// The URLs of `s`, in order of appearance.
pub open spec fn urls_in(s: Seq<char>) -> Seq<Seq<char>> {
    url_spans(s).map_values(|p: (nat, nat)| s.subrange(p.0 as int, p.1 as int))
}

pub proof fn lemma_run_end(s: Seq<char>, j: nat)
    requires
        j <= s.len(),
    ensures
        j <= run_end(s, j) <= s.len(),
        forall|m: int| j <= m < run_end(s, j) ==> !is_space(#[trigger] s[m]),
        run_end(s, j) == s.len() || is_space(s[run_end(s, j) as int]),
    decreases s.len() - j,
{
    if j < s.len() && !is_space(s[j as int]) {
        lemma_run_end(s, j + 1);
    }
}

/// Whether the scheme prefix starts at `i`; returns its length or 0.
fn scheme_at(cs: &Vec<char>, i: usize) -> (r: usize)
    requires
        i < cs@.len(),
    ensures
        r == scheme_len(cs@, i as int),
{
    let n = cs.len();
    if n - i >= 7 && cs[i] == 'h' && cs[i + 1] == 't' && cs[i + 2] == 't' && cs[i + 3] == 'p'
        && cs[i + 4] == ':' && cs[i + 5] == '/' && cs[i + 6] == '/' {
        7
    } else if n - i >= 8 && cs[i] == 'h' && cs[i + 1] == 't' && cs[i + 2] == 't'
        && cs[i + 3] == 'p' && cs[i + 4] == 's' && cs[i + 5] == ':' && cs[i + 6] == '/'
        && cs[i + 7] == '/' {
        8
    } else {
        0
    }
}

fn trailing_punct(c: char) -> (r: bool)
    ensures
        r == is_trailing_punct(c),
{
    c == '.' || c == '!' || c == ',' || c == ';' || c == '?' || c == '\'' || c == '"'
}

/// The spans of the URLs in `cs`, in order of appearance.
fn spans_of(cs: &Vec<char>) -> (r: Vec<(usize, usize)>)
    ensures
        r@.len() == url_spans(cs@).len(),
        forall|k: int|
            0 <= k < r@.len() ==> (#[trigger] r@[k]).0 as nat == url_spans(cs@)[k].0
                && r@[k].1 as nat == url_spans(cs@)[k].1,
{
    let ghost s = cs@;
    let n = cs.len();
    let mut out: Vec<(usize, usize)> = Vec::new();
    let ghost mut done: Seq<(nat, nat)> = Seq::empty();
    let mut i: usize = 0;
    while i < n
        invariant
            n == s.len(),
            s == cs@,
            i <= n,
            done + spans_from(s, i as nat) == url_spans(s),
            out@.len() == done.len(),
            forall|k: int|
                0 <= k < out@.len() ==> (#[trigger] out@[k]).0 as nat == done[k].0
                    && out@[k].1 as nat == done[k].1,
        decreases n - i,
    {
        let k = scheme_at(cs, i);
        if k > 0 && i + k < n && !space(cs[i + k]) {
            let body = i + k;
            let mut j = body;
            proof {
                lemma_run_end(s, body as nat);
            }
            while j < n && !space(cs[j])
                invariant
                    n == s.len(),
                    s == cs@,
                    body <= j <= n,
                    run_end(s, j as nat) == run_end(s, body as nat),
                decreases n - j,
            {
                j = j + 1;
            }
            let end = if j - body >= 2 && trailing_punct(cs[j - 1]) {
                j - 1
            } else {
                j
            };
            proof {
                let ghost old_done = done;
                done = done.push((i as nat, end as nat));
                assert(spans_from(s, i as nat) == seq![(i as nat, end as nat)] + spans_from(
                    s,
                    j as nat,
                ));
                assert(old_done + spans_from(s, i as nat) == done + spans_from(s, j as nat));
            }
            out.push((i, end));
            i = j;
        } else {
            i = i + 1;
        }
    }
    proof {
        assert(done =~= url_spans(s));
    }
    out
}

/// The URLs that appear in `text`, in order of appearance, duplicates kept.
pub fn extract_urls(text: &str) -> (r: Vec<String>)
    ensures
        r@.len() == urls_in(text@).len(),
        forall|k: int| 0 <= k < r@.len() ==> (#[trigger] r@[k])@ == urls_in(text@)[k],
{
    let cs = chars_of(text);
    let spans = spans_of(&cs);
    let mut out: Vec<String> = Vec::new();
    let mut k: usize = 0;
    while k < spans.len()
        invariant
            cs@ == text@,
            spans@.len() == url_spans(text@).len(),
            forall|m: int|
                0 <= m < spans@.len() ==> (#[trigger] spans@[m]).0 as nat == url_spans(
                    text@,
                )[m].0 && spans@[m].1 as nat == url_spans(text@)[m].1,
            k <= spans@.len(),
            out@.len() == k,
            forall|m: int| 0 <= m < k ==> (#[trigger] out@[m])@ == urls_in(text@)[m],
        decreases spans@.len() - k,
    {
        let (a, b) = spans[k];
        proof {
            lemma_spans_well_formed(text@);
        }
        let url = string_of(vstd::slice::slice_subrange(cs.as_slice(), a, b));
        out.push(url);
        k = k + 1;
    }
    out
}

/// Facts of every span found from `i` on: it lies after `i`, opens with a
/// scheme followed by at least one character, holds no whitespace, and is
/// followed by whitespace, the end, or one punctuation character that is
/// itself followed by whitespace or the end; spans come in order.
proof fn lemma_spans_from(s: Seq<char>, i: nat)
    ensures
        forall|k: int| 0 <= k < spans_from(s, i).len() ==> span_ok(s, #[trigger] spans_from(s, i)[k]) && spans_from(s, i)[k].0 >= i,
        forall|k: int| 0 <= k && k + 1 < spans_from(s, i).len() ==> (#[trigger] spans_from(s, i)[k]).1 <= spans_from(s, i)[k + 1].0,
    decreases s.len() - i,
{
    if i < s.len() {
        if url_starts_at(s, i) {
            let body = (i + scheme_len(s, i as int)) as nat;
            let e = run_end(s, body);
            lemma_run_end(s, body);
            lemma_spans_from(s, e);
            let rest = spans_from(s, e);
            let whole = spans_from(s, i);
            assert(whole == seq![(i, url_end(s, body, e))] + rest);
            assert(span_ok(s, whole[0]));
            assert forall|k: int| 0 <= k && k + 1 < whole.len() implies (#[trigger] whole[k]).1 <= whole[k + 1].0 by {
                if k > 0 {
                    assert(whole[k] == rest[k - 1]);
                    assert(whole[k + 1] == rest[k]);
                } else {
                    assert(whole[1] == rest[0]);
                }
            }
            assert forall|k: int| 0 <= k < whole.len() implies span_ok(s, #[trigger] whole[k]) && whole[k].0 >= i by {
                if k > 0 {
                    assert(whole[k] == rest[k - 1]);
                }
            }
        } else {
            lemma_spans_from(s, i + 1);
            assert(spans_from(s, i) == spans_from(s, i + 1));
        }
    }
}

/// What holds of the span `p` of one extracted URL in `s`.
pub open spec fn span_ok(s: Seq<char>, p: (nat, nat)) -> bool {
    let (a, b) = p;
    &&& scheme_len(s, a as int) > 0
    &&& a + scheme_len(s, a as int) < b <= s.len()
    &&& forall|m: int| a <= m < b ==> !is_space(#[trigger] s[m])
    &&& (b == s.len() || is_space(s[b as int]) || (is_trailing_punct(s[b as int]) && (b + 1
        == s.len() || is_space(s[b + 1 as int]))))
    &&& ((b == s.len() || is_space(s[b as int])) && b >= a + scheme_len(s, a as int) + 2
        ==> !is_trailing_punct(s[b - 1]))
}

/// Every extracted URL starts with `http://` or `https://`, holds no
/// whitespace, and ends where the text has whitespace or ends, or just before
/// a single punctuation character that is followed by whitespace or the end;
/// a URL of two or more characters after its scheme that runs up to
/// whitespace or the end does not end in such punctuation, which was left out.
pub proof fn lemma_spans_well_formed(s: Seq<char>)
    ensures
        forall|k: int| 0 <= k < url_spans(s).len() ==> span_ok(s, #[trigger] url_spans(s)[k]),
{
    lemma_spans_from(s, 0);
}

/// URLs come out in their order of appearance: each span ends at or before
/// the start of the next, so starts strictly increase.
pub proof fn lemma_spans_in_order(s: Seq<char>)
    ensures
        forall|k: int|
            0 <= k && k + 1 < url_spans(s).len() ==> (#[trigger] url_spans(s)[k]).1 <= url_spans(s)[k + 1].0
                && url_spans(s)[k].0 < url_spans(s)[k + 1].0,
{
    lemma_spans_from(s, 0);
}

} // verus!
