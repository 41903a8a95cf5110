//! Which remote of a repository to link to, and how its URL is shown.
use vstd::prelude::*;
use crate::text::str_eq;

verus! {

/// The index of the first occurrence of `c` in `s` at or after `i`.
pub open spec fn first_index_from(s: Seq<char>, c: char, i: int) -> Option<int>
    decreases s.len() - i,
{
    if i < 0 || i >= s.len() {
        None
    } else if s[i] == c {
        Some(i)
    } else {
        first_index_from(s, c, i + 1)
    }
}

proof fn lemma_first_index_bounds(s: Seq<char>, c: char, i: int)
    ensures
        first_index_from(s, c, i) matches Some(k) ==> i <= k < s.len() && s[k] == c,
    decreases s.len() - i,
{
    if 0 <= i < s.len() && s[i] != c {
        lemma_first_index_bounds(s, c, i + 1);
    }
}

/// A remote URL as a web address: `https://` URLs as they are, scp-like
/// `user@host:path` as `https://host/path`, anything else as it is.
pub open spec fn web_url(u: Seq<char>) -> Seq<char> {
    if u.len() >= 8 && u.subrange(0, 8) == "https://"@ {
        u
    } else {
        match first_index_from(u, '@', 0) {
            Some(a) => {
                let rest = u.subrange(a + 1, u.len() as int);
                match first_index_from(rest, ':', 0) {
                    Some(c) => "https://"@ + rest.subrange(0, c) + "/"@ + rest.subrange(
                        c + 1,
                        rest.len() as int,
                    ),
                    None => u,
                }
            },
            None => u,
        }
    }
}

fn find_first(s: &str, len: usize, c: char) -> (r: Option<usize>)
    requires
        len == s@.len(),
    ensures
        match r {
            Some(k) => first_index_from(s@, c, 0) == Some(k as int) && k < len,
            None => first_index_from(s@, c, 0) is None,
        },
{
    proof {
        lemma_first_index_bounds(s@, c, 0);
    }
    let mut k: usize = 0;
    while k < len
        invariant
            len == s@.len(),
            0 <= k <= len,
            first_index_from(s@, c, 0) == first_index_from(s@, c, k as int),
        decreases len - k,
    {
        if s.get_char(k) == c {
            return Some(k);
        }
        k = k + 1;
    }
    None
}

/// The web address of a remote URL.
pub fn transform_url(url: String) -> (r: String)
    ensures
        r@ == web_url(url@),
{
    let s = url.as_str();
    let len = s.unicode_len();
    if len >= 8 && str_eq(s.substring_char(0, 8), "https://") {
        return url;
    }
    if let Some(a) = find_first(s, len, '@') {
        let rest = s.substring_char(a + 1, len);
        let rlen = rest.unicode_len();
        if let Some(c) = find_first(rest, rlen, ':') {
            let r = String::from_str("https://").concat(rest.substring_char(0, c)).concat(
                "/",
            ).concat(rest.substring_char(c + 1, rlen));
            return r;
        }
    }
    url
}

/// The URL to link to: that of the remote named `origin` where there is
/// one (even when it has no URL), else that of the first remote; shown as
/// a web address.
pub fn main_remote_url(origin: Option<Option<String>>, first_remote: Option<String>) -> (r: Option<
    String,
>)
    ensures
        match origin {
            Some(Some(u)) => r matches Some(v) && v@ == web_url(u@),
            Some(None) => r is None,
            None => match first_remote {
                Some(u) => r matches Some(v) && v@ == web_url(u@),
                None => r is None,
            },
        },
{
    match origin {
        Some(Some(u)) => Some(transform_url(u)),
        Some(None) => None,
        None => match first_remote {
            Some(u) => Some(transform_url(u)),
            None => None,
        },
    }
}

} // verus!
