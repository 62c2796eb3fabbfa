//! Turning raw address-bar text into a canonical URL, and a URL into its domain.

use vstd::prelude::*;
use crate::text::{
    chars_of, has_char, has_prefix, is_trimmed, lemma_trim_end_keeps, lemma_trim_fixed,
    lemma_trimmed_is_trimmed, opt_view, trim_start, trim_white, trimmed,
};

verus! {

/// The plain-HTTP scheme prefix.
pub open spec fn http_scheme() -> Seq<char> {
    "http://"@
}

/// The HTTPS scheme prefix.
pub open spec fn https_scheme() -> Seq<char> {
    "https://"@
}

/// `t` begins with `http://` or `https://`.
pub open spec fn has_scheme(t: Seq<char>) -> bool {
    http_scheme().is_prefix_of(t) || https_scheme().is_prefix_of(t)
}

/// The heuristic for a bare host typed without a scheme: a dot and no space.
pub open spec fn looks_like_host(t: Seq<char>) -> bool {
    t.contains('.') && !t.contains(' ')
}

/// The canonical form of raw address-bar text.
pub open spec fn normalized(raw: Seq<char>) -> Seq<char> {
    let t = trimmed(raw);
    if has_scheme(t) {
        t
    } else if looks_like_host(t) {
        https_scheme() + t
    } else {
        t
    }
}

/// `t` with a leading `https://` or `http://` removed.
pub open spec fn strip_scheme(t: Seq<char>) -> Seq<char> {
    if https_scheme().is_prefix_of(t) {
        t.skip(https_scheme().len() as int)
    } else if http_scheme().is_prefix_of(t) {
        t.skip(http_scheme().len() as int)
    } else {
        t
    }
}

/// The characters at which the host part of a URL ends.
pub open spec fn ends_host(c: char) -> bool {
    c == '/' || c == '?' || c == '#' || c == ':'
}

/// The number of characters of `s` before its first host terminator.
pub open spec fn host_len(s: Seq<char>) -> nat
    decreases s.len(),
{
    if s.len() == 0 || ends_host(s[0]) {
        0
    } else {
        1 + host_len(s.drop_first())
    }
}

/// The candidate host of a URL: after trimming and removing the scheme,
/// everything before the first `/`, `?`, `#` or `:`.
pub open spec fn host_of(url: Seq<char>) -> Seq<char> {
    let rest = strip_scheme(trimmed(url));
    rest.take(host_len(rest) as int)
}

/// The domain of a URL: its candidate host, when that is non-empty and holds a dot.
pub open spec fn domain_of(url: Seq<char>) -> Option<Seq<char>> {
    let h = host_of(url);
    if h.len() > 0 && h.contains('.') {
        Some(h)
    } else {
        None
    }
}

proof fn lemma_host_len(s: Seq<char>, i: int)
    requires
        0 <= i <= s.len(),
        forall|j: int| 0 <= j < i ==> !ends_host(#[trigger] s[j]),
        i == s.len() || ends_host(s[i]),
    ensures
        host_len(s) == i,
    decreases i,
{
    if i > 0 {
        let t = s.drop_first();
        assert forall|j: int| 0 <= j < i - 1 implies !ends_host(#[trigger] t[j]) by {
            assert(t[j] == s[j + 1]);
        }
        assert(i - 1 < t.len() ==> t[i - 1] == s[i]);
        lemma_host_len(t, i - 1);
    }
}

fn is_host_end(c: char) -> (r: bool)
    ensures
        r == ends_host(c),
{
    c == '/' || c == '?' || c == '#' || c == ':'
}

/// Turns raw address-bar text into a canonical absolute URL.
///
/// The text is trimmed; text that already has an `http` or `https` scheme is
/// kept, text that holds a dot and no space gets `https://` in front, and any
/// other text is returned trimmed.
pub fn normalize_url(url: &str) -> (r: String)
    ensures
        r@ == normalized(url@),
{
    let t = trim_white(url);
    let cs = chars_of(t);
    let http = chars_of("http://");
    let https = chars_of("https://");
    if has_prefix(&cs, &http) || has_prefix(&cs, &https) {
        String::from_str(t)
    } else if has_char(&cs, '.') && !has_char(&cs, ' ') {
        String::from_str("https://").concat(t)
    } else {
        String::from_str(t)
    }
}

/// The domain of a URL, or `None` when its host is empty or holds no dot.
pub fn extract_domain(url: &str) -> (r: Option<String>)
    ensures
        opt_view(r) == domain_of(url@),
{
    let t = trim_white(url);
    let cs = chars_of(t);
    let http = chars_of("http://");
    let https = chars_of("https://");
    let start: usize = if has_prefix(&cs, &https) {
        https.len()
    } else if has_prefix(&cs, &http) {
        http.len()
    } else {
        0
    };
    let ghost rest = strip_scheme(t@);
    assert(rest =~= cs@.skip(start as int));
    let mut end: usize = start;
    while end < cs.len()
        invariant
            start <= end <= cs.len(),
            rest == cs@.skip(start as int),
            forall|j: int| 0 <= j < end - start ==> !ends_host(#[trigger] rest[j]),
        ensures
            end == cs.len() || ends_host(rest[end - start]),
        decreases cs.len() - end,
    {
        if is_host_end(cs[end]) {
            break;
        }
        end = end + 1;
    }
    proof {
        lemma_host_len(rest, end - start);
    }
    let host = t.substring_char(start, end);
    assert(host@ =~= host_of(url@));
    if end > start && has_char(&chars_of(host), '.') {
        Some(String::from_str(host))
    } else {
        None
    }
}

/// Normalising is idempotent: normalising an already normalised URL changes nothing.
pub proof fn lemma_normalize_idempotent(raw: Seq<char>)
    ensures
        normalized(normalized(raw)) == normalized(raw),
{
    reveal_strlit("https://");
    let t = trimmed(raw);
    lemma_trimmed_is_trimmed(raw);
    if !has_scheme(t) && looks_like_host(t) {
        let u = https_scheme() + t;
        assert(u[0] == 'h');
        assert(u.last() == t.last());
        assert(is_trimmed(u));
        lemma_trim_fixed(u);
        assert(u.subrange(0, https_scheme().len() as int) =~= https_scheme());
    } else {
        lemma_trim_fixed(t);
    }
}

/// Text that starts with `http://` or `https://` is returned as it is, but trimmed.
pub proof fn lemma_normalize_keeps_scheme(raw: Seq<char>)
    requires
        has_scheme(raw),
    ensures
        normalized(raw) == trimmed(raw),
{
    reveal_strlit("http://");
    reveal_strlit("https://");
    let p = if http_scheme().is_prefix_of(raw) {
        http_scheme()
    } else {
        https_scheme()
    };
    assert(raw[0] == p[0]);
    assert(trim_start(raw) == raw);
    let k = p.len() - 1;
    assert(raw[k] == p[k]);
    lemma_trim_end_keeps(raw, k);
    let t = trimmed(raw);
    assert(t.subrange(0, p.len() as int) =~= raw.subrange(0, p.len() as int));
    assert(p.is_prefix_of(t));
}

} // verus!
