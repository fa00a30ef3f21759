use vstd::prelude::*;
use crate::text::{find_char, find_from, lemma_find_from_bounds, same_text};

verus! {

/// The text after the first `c` in `s`, up to the next `c` or the end.
pub open spec fn piece_after(s: Seq<char>, c: char) -> Option<Seq<char>> {
    let i = find_from(s, c, 0);
    if i >= s.len() {
        None
    } else {
        Some(s.subrange(i + 1, find_from(s, c, i + 1)))
    }
}

/// The value of the first `key=value` pair with a non-empty value among the
/// `&`-separated pairs of `seg`, scanning from `from`.
pub open spec fn param_value(seg: Seq<char>, key: Seq<char>, from: int) -> Option<Seq<char>>
    decreases seg.len() - from,
    via param_value_decreases
{
    if from < 0 || from > seg.len() {
        None
    } else {
        let end = find_from(seg, '&', from);
        let p = seg.subrange(from, end);
        let eq = find_from(p, '=', 0);
        if eq < p.len() && p.subrange(0, eq) == key && eq + 1 < p.len() {
            Some(p.subrange(eq + 1, p.len() as int))
        } else if end >= seg.len() {
            None
        } else {
            param_value(seg, key, end + 1)
        }
    }
}

#[via_fn]
proof fn param_value_decreases(seg: Seq<char>, key: Seq<char>, from: int) {
    if 0 <= from <= seg.len() {
        lemma_find_from_bounds(seg, '&', from);
    }
}

/// The parameter `key` of a callback location: looked up in the query, then
/// in the fragment.
pub open spec fn url_param(url: Seq<char>, key: Seq<char>) -> Option<Seq<char>> {
    let in_query = match piece_after(url, '?') {
        Some(q) => param_value(q, key, 0),
        None => None,
    };
    if in_query is Some {
        in_query
    } else {
        match piece_after(url, '#') {
            Some(f) => param_value(f, key, 0),
            None => None,
        }
    }
}

fn piece(s: &str, c: char) -> (r: Option<&str>)
    ensures
        match r {
            Some(p) => piece_after(s@, c) == Some(p@),
            None => piece_after(s@, c) is None,
        },
{
    let n = s.unicode_len();
    let i = find_char(s, c, 0);
    proof {
        lemma_find_from_bounds(s@, c, 0);
    }
    if i >= n {
        return None;
    }
    let j = find_char(s, c, i + 1);
    proof {
        lemma_find_from_bounds(s@, c, i + 1);
    }
    Some(s.substring_char(i + 1, j))
}

fn param_in(seg: &str, key: &str) -> (r: Option<String>)
    ensures
        match r {
            Some(v) => param_value(seg@, key@, 0) == Some(v@),
            None => param_value(seg@, key@, 0) is None,
        },
{
    let n = seg.unicode_len();
    let mut from: usize = 0;
    loop
        invariant
            n == seg@.len(),
            from <= n,
            param_value(seg@, key@, 0) == param_value(seg@, key@, from as int),
        decreases n - from,
    {
        let end = find_char(seg, '&', from);
        proof {
            lemma_find_from_bounds(seg@, '&', from as int);
        }
        let p = seg.substring_char(from, end);
        let plen = end - from;
        let eq = find_char(p, '=', 0);
        proof {
            lemma_find_from_bounds(p@, '=', 0);
        }
        if eq < plen && eq + 1 < plen && same_text(p.substring_char(0, eq), key) {
            return Some(String::from_str(p.substring_char(eq + 1, plen)));
        }
        if end >= n {
            return None;
        }
        from = end + 1;
    }
}

/// The parameter `key` of a callback location, from its query or else its
/// fragment; only a non-empty value counts.
pub fn extract_url_param(url: &str, key: &str) -> (r: Option<String>)
    ensures
        match r {
            Some(v) => url_param(url@, key@) == Some(v@),
            None => url_param(url@, key@) is None,
        },
{
    if let Some(q) = piece(url, '?') {
        if let Some(v) = param_in(q, key) {
            return Some(v);
        }
    }
    match piece(url, '#') {
        Some(f) => param_in(f, key),
        None => None,
    }
}

/// The access token handed back by a login callback, under any of the names
/// the service uses.
pub open spec fn access_token_of(url: Seq<char>) -> Option<Seq<char>> {
    if url_param(url, "access_token"@) is Some {
        url_param(url, "access_token"@)
    } else if url_param(url, "accessToken"@) is Some {
        url_param(url, "accessToken"@)
    } else {
        url_param(url, "token"@)
    }
}

pub fn extract_access_token(url: &str) -> (r: Option<String>)
    ensures
        match r {
            Some(v) => access_token_of(url@) == Some(v@),
            None => access_token_of(url@) is None,
        },
{
    if let Some(v) = extract_url_param(url, "access_token") {
        return Some(v);
    }
    if let Some(v) = extract_url_param(url, "accessToken") {
        return Some(v);
    }
    extract_url_param(url, "token")
}

} // verus!
