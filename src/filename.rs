//! Choosing the name under which a fetched resource is saved.
//!
//! The precedence is: the `filename="..."` parameter of the
//! `Content-Disposition` header when it is present and non-empty, then the
//! last segment of the request URL's path when it is non-empty, else nothing
//! (the caller then makes up a name from the task's position).
use vstd::prelude::*;
use crate::chars::{chars_of, string_of};

verus! {

/// `filename="` starts at `p`.
pub open spec fn marker_at(s: Seq<char>, p: int) -> bool {
    0 <= p && p + 10 <= s.len() && s[p] == 'f' && s[p + 1] == 'i' && s[p + 2] == 'l' && s[p
        + 3] == 'e' && s[p + 4] == 'n' && s[p + 5] == 'a' && s[p + 6] == 'm' && s[p + 7] == 'e'
        && s[p + 8] == '=' && s[p + 9] == '"'
}

/// The first `"` at or after `j` with no line break before it.
pub open spec fn closing_quote(s: Seq<char>, j: nat) -> Option<nat>
    decreases s.len() - j,
{
    if j >= s.len() {
        None
    } else if s[j as int] == '"' {
        Some(j)
    } else if s[j as int] == '\n' {
        None
    } else {
        closing_quote(s, j + 1)
    }
}

/// The leftmost `filename="..."` value found from `p` on: the shortest
/// quoted text after the first marker that has a closing quote.
pub open spec fn quoted_name_from(s: Seq<char>, p: nat) -> Option<Seq<char>>
    decreases s.len() - p,
{
    if p + 10 > s.len() {
        None
    } else if marker_at(s, p as int) && closing_quote(s, p + 10) is Some {
        Some(s.subrange(p + 10 as int, closing_quote(s, p + 10)->0 as int))
    } else {
        quoted_name_from(s, p + 1)
    }
}

pub open spec fn quoted_name(s: Seq<char>) -> Option<Seq<char>> {
    quoted_name_from(s, 0)
}

/// Start of the last `/`-separated segment of `s[0..i)`.
pub open spec fn segment_start(s: Seq<char>, i: nat) -> nat
    decreases i,
{
    if i == 0 || i > s.len() {
        0
    } else if s[i - 1 as int] == '/' {
        i
    } else {
        segment_start(s, (i - 1) as nat)
    }
}

/// What follows the final `/` of a path, or the whole path if it has none.
pub open spec fn last_segment(path: Seq<char>) -> Seq<char> {
    path.subrange(segment_start(path, path.len()) as int, path.len() as int)
}

/// The name that a `Content-Disposition` value gives, if any.
pub open spec fn header_hint(disposition: Option<Seq<char>>) -> Option<Seq<char>> {
    match disposition {
        Some(d) => match quoted_name(d) {
            Some(n) => if n.len() > 0 { Some(n) } else { None },
            None => None,
        },
        None => None,
    }
}

/// The name that a URL path gives, if any.
pub open spec fn path_hint(path: Option<Seq<char>>) -> Option<Seq<char>> {
    match path {
        Some(p) => if last_segment(p).len() > 0 { Some(last_segment(p)) } else { None },
        None => None,
    }
}

/// The header's name takes precedence over the path's.
pub open spec fn resolved_hint(disposition: Option<Seq<char>>, path: Option<Seq<char>>) -> Option<
    Seq<char>,
> {
    match header_hint(disposition) {
        Some(n) => Some(n),
        None => path_hint(path),
    }
}

/// The path of a URL as the URL parser gives it, or `None` where the text is
/// not an absolute URL.
pub uninterp spec fn url_path_of(url: Seq<char>) -> Option<Seq<char>>;

/// Relies on `reqwest::Url::parse` (the `url` crate) and `Url::path`: the
/// parsed URL's path, or `None` when parsing fails. The result depends on the
/// text alone.
#[verifier::external_body]
fn parse_url_path(url: &str) -> (r: Option<String>)
    ensures
        r.deep_view() == url_path_of(url@),
{
    reqwest::Url::parse(url).ok().map(|u| u.path().to_string())
}

fn marker_at_exec(cs: &Vec<char>, p: usize) -> (r: bool)
    requires
        p < cs@.len(),
    ensures
        r == marker_at(cs@, p as int),
{
    cs.len() - p >= 10 && cs[p] == 'f' && cs[p + 1] == 'i' && cs[p + 2] == 'l' && cs[p + 3]
        == 'e' && cs[p + 4] == 'n' && cs[p + 5] == 'a' && cs[p + 6] == 'm' && cs[p + 7] == 'e'
        && cs[p + 8] == '=' && cs[p + 9] == '"'
}

fn closing_quote_exec(cs: &Vec<char>, j: usize) -> (r: Option<usize>)
    requires
        j <= cs@.len(),
    ensures
        r.is_some() == closing_quote(cs@, j as nat).is_some(),
        r.is_some() ==> r.unwrap() as nat == closing_quote(cs@, j as nat)->0,
        r.is_some() ==> j <= r.unwrap() < cs@.len(),
{
    let mut q = j;
    while q < cs.len()
        invariant
            j <= q <= cs@.len(),
            closing_quote(cs@, q as nat) == closing_quote(cs@, j as nat),
        decreases cs@.len() - q,
    {
        if cs[q] == '"' {
            return Some(q);
        } else if cs[q] == '\n' {
            return None;
        }
        q = q + 1;
    }
    None
}

/// The value of the first `filename="..."` parameter in a
/// `Content-Disposition` header value, if one is there.
pub fn quoted_filename(value: &str) -> (r: Option<String>)
    ensures
        r.deep_view() == quoted_name(value@),
{
    let cs = chars_of(value);
    let n = cs.len();
    let mut p: usize = 0;
    while p < n && n - p >= 10
        invariant
            cs@ == value@,
            n == cs@.len(),
            p <= n,
            quoted_name_from(cs@, p as nat) == quoted_name(cs@),
        decreases n - p,
    {
        if marker_at_exec(&cs, p) {
            match closing_quote_exec(&cs, p + 10) {
                Some(q) => {
                    let name = string_of(vstd::slice::slice_subrange(cs.as_slice(), p + 10, q));
                    return Some(name);
                },
                None => {},
            }
        }
        p = p + 1;
    }
    None
}

/// The last segment of a URL path: what follows its final `/`.
pub fn path_last_segment(path: &str) -> (r: String)
    ensures
        r@ == last_segment(path@),
{
    let cs = chars_of(path);
    let n = cs.len();
    let mut i = n;
    while i > 0 && cs[i - 1] != '/'
        invariant
            cs@ == path@,
            n == cs@.len(),
            i <= n,
            segment_start(cs@, i as nat) == segment_start(cs@, n as nat),
        decreases i,
    {
        i = i - 1;
    }
    string_of(vstd::slice::slice_subrange(cs.as_slice(), i, n))
}

/// The file name hint for a response, from its `Content-Disposition` value
/// (if any) and the path of the request URL (if it parsed).
pub fn hint_from_parts(disposition: Option<&str>, path: Option<&str>) -> (r: Option<String>)
    ensures
        r.deep_view() == resolved_hint(disposition.deep_view(), path.deep_view()),
{
    match disposition {
        Some(d) => match quoted_filename(d) {
            Some(name) => {
                if name.as_str().unicode_len() > 0 {
                    return Some(name);
                }
            },
            None => {},
        },
        None => {},
    }
    match path {
        Some(p) => {
            let seg = path_last_segment(p);
            if seg.as_str().unicode_len() > 0 {
                Some(seg)
            } else {
                None
            }
        },
        None => None,
    }
}

/// The file name hint for a response to a request for `url`.
pub fn filename_hint(disposition: Option<&str>, url: &str) -> (r: Option<String>)
    ensures
        r.deep_view() == resolved_hint(disposition.deep_view(), url_path_of(url@)),
{
    let path = parse_url_path(url);
    match path {
        Some(p) => hint_from_parts(disposition, Some(p.as_str())),
        None => hint_from_parts(disposition, None),
    }
}

} // verus!
