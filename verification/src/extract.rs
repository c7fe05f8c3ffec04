//! The tunnel-URL extractor: a substring search and a whitespace tokenizer
//! over raw line bytes.
//!
//! A stderr line of the tunnel process announces an endpoint when it holds
//! the fixed marker substring; the announcement's payload is the first
//! whitespace-delimited token of the line that holds the scheme prefix. A
//! line with the marker but no such token announces nothing, and that is no
//! error.

use vstd::prelude::*;
use vstd::string::StrSliceExecFns;
use vstd::utf8::encode_utf8;

verus! {

/// ASCII whitespace, the separators the tokenizer splits on.
pub open spec fn is_ws(b: u8) -> bool {
    b == 0x20 || b == 0x09 || b == 0x0a || b == 0x0b || b == 0x0c || b == 0x0d
}

/// `needle` occurs in `s` starting at position `i`.
pub open spec fn matches_at(s: Seq<u8>, needle: Seq<u8>, i: int) -> bool {
    &&& 0 <= i
    &&& i + needle.len() <= s.len()
    &&& forall|t: int| 0 <= t < needle.len() ==> s[i + t] == needle[t]
}

/// `needle` occurs somewhere in `s`.
pub open spec fn contains_seq(s: Seq<u8>, needle: Seq<u8>) -> bool {
    exists|i: int| matches_at(s, needle, i)
}

/// The marker that signals a tunnel announcement line.
pub open spec fn tunnel_marker() -> Seq<u8> {
    encode_utf8(".trycloudflare.com"@)
}

/// The scheme prefix a qualifying token must hold.
pub open spec fn url_scheme() -> Seq<u8> {
    encode_utf8("https://"@)
}

/// `s[i..j]` is one whitespace-delimited token: a maximal non-empty run of
/// non-whitespace bytes.
pub open spec fn token_at(s: Seq<u8>, i: int, j: int) -> bool {
    &&& 0 <= i < j <= s.len()
    &&& forall|k: int| i <= k < j ==> !is_ws(s[k])
    &&& (i == 0 || is_ws(s[i - 1]))
    &&& (j == s.len() || is_ws(s[j]))
}

/// The token `s[i..j]` holds the scheme prefix.
pub open spec fn url_token_at(s: Seq<u8>, i: int, j: int) -> bool {
    token_at(s, i, j) && contains_seq(s.subrange(i, j), url_scheme())
}

/// Some whitespace-delimited token of `s` holds the scheme prefix.
pub open spec fn has_url_token(s: Seq<u8>) -> bool {
    exists|i: int, j: int| url_token_at(s, i, j)
}

/// `s[i..j]` is the leftmost token holding the scheme prefix.
pub open spec fn first_url_token_at(s: Seq<u8>, i: int, j: int) -> bool {
    url_token_at(s, i, j) && forall|i2: int, j2: int| url_token_at(s, i2, j2) ==> i <= i2
}

/// A line announces a tunnel endpoint when it holds the marker and some
/// token of it holds the scheme prefix.
pub open spec fn announces_tunnel(s: Seq<u8>) -> bool {
    contains_seq(s, tunnel_marker()) && has_url_token(s)
}

/// A token's end is determined by its start.
proof fn lemma_token_end_unique(s: Seq<u8>, i: int, j1: int, j2: int)
    requires
        token_at(s, i, j1),
        token_at(s, i, j2),
    ensures
        j1 == j2,
{
    if j1 < j2 {
        assert(is_ws(s[j1]));
        assert(!is_ws(s[j1]));
    }
    if j2 < j1 {
        assert(is_ws(s[j2]));
        assert(!is_ws(s[j2]));
    }
}

/// The marker as bytes.
fn tunnel_marker_bytes() -> (r: Vec<u8>)
    ensures
        r@ == tunnel_marker(),
{
    ".trycloudflare.com".as_bytes_vec()
}

/// The scheme prefix as bytes.
fn url_scheme_bytes() -> (r: Vec<u8>)
    ensures
        r@ == url_scheme(),
{
    "https://".as_bytes_vec()
}

/// Whether `b` is an ASCII whitespace byte.
fn is_ws_byte(b: u8) -> (r: bool)
    ensures
        r == is_ws(b),
{
    b == 0x20 || b == 0x09 || b == 0x0a || b == 0x0b || b == 0x0c || b == 0x0d
}

/// Whether `needle` occurs in `hay` starting exactly at `pos`.
fn bytes_match_at(hay: &Vec<u8>, pos: usize, needle: &Vec<u8>) -> (r: bool)
    requires
        pos + needle@.len() <= hay@.len(),
    ensures
        r == (forall|t: int| 0 <= t < needle@.len() ==> hay@[pos + t] == needle@[t]),
{
    let hlen = hay.len();
    let nlen = needle.len();
    let mut t: usize = 0;
    while t < nlen
        invariant
            hlen == hay@.len(),
            nlen == needle@.len(),
            t <= nlen,
            pos + nlen <= hlen,
            forall|u: int| 0 <= u < t ==> hay@[pos + u] == needle@[u],
        decreases nlen - t,
    {
        if hay[pos + t] != needle[t] {
            return false;
        }
        t += 1;
    }
    true
}

/// Whether `needle` occurs anywhere in `hay[lo..hi]`.
fn range_contains(hay: &Vec<u8>, lo: usize, hi: usize, needle: &Vec<u8>) -> (r: bool)
    requires
        lo <= hi <= hay@.len(),
    ensures
        r == contains_seq(hay@.subrange(lo as int, hi as int), needle@),
{
    let ghost sub = hay@.subrange(lo as int, hi as int);
    let width = hi - lo;
    if needle.len() > width {
        proof {
            assert(forall|i: int| !matches_at(sub, needle@, i));
        }
        return false;
    }
    let last = width - needle.len();
    let mut st: usize = 0;
    while st <= last
        invariant
            lo <= hi <= hay@.len(),
            needle@.len() + last == hi - lo,
            st <= last + 1,
            sub == hay@.subrange(lo as int, hi as int),
            forall|i: int| 0 <= i < st ==> !matches_at(sub, needle@, i),
        decreases last + 1 - st,
    {
        if bytes_match_at(hay, lo + st, needle) {
            proof {
                assert forall|t: int| 0 <= t < needle@.len() implies sub[st + t] == needle@[t] by {
                    assert(hay@[lo + st + t] == needle@[t]);
                }
                assert(matches_at(sub, needle@, st as int));
            }
            return true;
        }
        proof {
            if matches_at(sub, needle@, st as int) {
                assert forall|t: int| 0 <= t < needle@.len() implies hay@[lo + st + t]
                    == needle@[t] by {
                    assert(sub[st + t] == needle@[t]);
                }
                assert(false);
            }
        }
        st += 1;
    }
    proof {
        assert forall|i: int| !matches_at(sub, needle@, i) by {
            if i > last {
                assert(!matches_at(sub, needle@, i));
            }
        }
    }
    false
}

/// Whether `needle` occurs anywhere in `hay`.
pub fn contains_bytes(hay: &Vec<u8>, needle: &Vec<u8>) -> (r: bool)
    ensures
        r == contains_seq(hay@, needle@),
{
    let r = range_contains(hay, 0, hay.len(), needle);
    proof {
        assert(hay@.subrange(0, hay@.len() as int) =~= hay@);
    }
    r
}

/// The bytes of `v[lo..hi]`, copied out.
fn copy_range(v: &Vec<u8>, lo: usize, hi: usize) -> (r: Vec<u8>)
    requires
        lo <= hi <= v@.len(),
    ensures
        r@ == v@.subrange(lo as int, hi as int),
{
    let mut r: Vec<u8> = Vec::new();
    let mut t: usize = lo;
    proof {
        assert(r@ =~= v@.subrange(lo as int, lo as int));
    }
    while t < hi
        invariant
            lo <= t <= hi <= v@.len(),
            r@ == v@.subrange(lo as int, t as int),
        decreases hi - t,
    {
        r.push(v[t]);
        proof {
            assert(v@.subrange(lo as int, t + 1) =~= v@.subrange(lo as int, t as int).push(
                v@[t as int],
            ));
        }
        t += 1;
    }
    r
}

/// The bounds of the leftmost whitespace-delimited token of `line` that
/// holds the scheme prefix, if there is one.
fn find_url_token(line: &Vec<u8>) -> (r: Option<(usize, usize)>)
    ensures
        match r {
            Some(p) => first_url_token_at(line@, p.0 as int, p.1 as int),
            None => !has_url_token(line@),
        },
{
    let scheme = url_scheme_bytes();
    let n = line.len();
    let mut i: usize = 0;
    let mut start: usize = 0;
    let mut in_token: bool = false;
    while i < n
        invariant
            n == line@.len(),
            i <= n,
            scheme@ == url_scheme(),
            in_token ==> start < i,
            in_token ==> forall|k: int| start <= k < i ==> !is_ws(line@[k]),
            in_token ==> (start == 0 || is_ws(line@[start - 1])),
            !in_token ==> (i == 0 || is_ws(line@[i - 1])),
            forall|i2: int, j2: int|
                url_token_at(line@, i2, j2) ==> i2 >= (if in_token {
                    start as int
                } else {
                    i as int
                }),
        decreases n - i,
    {
        if is_ws_byte(line[i]) {
            if in_token {
                // the token line[start..i] is complete
                proof {
                    assert(token_at(line@, start as int, i as int));
                }
                if range_contains(line, start, i, &scheme) {
                    return Some((start, i));
                }
                proof {
                    // no url token starts at or before i: the one token
                    // starting at `start` ends at i and does not qualify,
                    // positions inside it are no token starts, and a token
                    // cannot start on the whitespace at i
                    assert forall|i2: int, j2: int| url_token_at(line@, i2, j2) implies i2 >= i
                        + 1 by {
                        if i2 == start {
                            lemma_token_end_unique(line@, i2, j2, i as int);
                        } else if start < i2 < i + 1 {
                            assert(!is_ws(line@[i2 - 1]));
                        }
                    }
                }
                in_token = false;
            }
        } else {
            if !in_token {
                start = i;
                in_token = true;
            }
        }
        i += 1;
    }
    if in_token {
        proof {
            assert(token_at(line@, start as int, n as int));
        }
        if range_contains(line, start, n, &scheme) {
            return Some((start, n));
        }
        proof {
            assert forall|i2: int, j2: int| !url_token_at(line@, i2, j2) by {
                if url_token_at(line@, i2, j2) {
                    if i2 == start {
                        lemma_token_end_unique(line@, i2, j2, n as int);
                    } else if start < i2 {
                        assert(i2 < j2 <= n);
                        assert(!is_ws(line@[i2 - 1]));
                    }
                }
            }
        }
        return None;
    }
    None
}

/// The payload of the tunnel announcement carried by one stderr line, if
/// any: the bytes of the first whitespace-delimited token holding the scheme
/// prefix, provided the line holds the marker. Every line is relayed whether
/// or not this matches; a marker line without a qualifying token simply
/// announces nothing.
pub fn extract_tunnel_url(line: &Vec<u8>) -> (r: Option<Vec<u8>>)
    ensures
        match r {
            Some(u) => announces_tunnel(line@) && exists|i: int, j: int|
                first_url_token_at(line@, i, j) && u@ == line@.subrange(i, j),
            None => !announces_tunnel(line@),
        },
{
    let marker = tunnel_marker_bytes();
    if !contains_bytes(line, &marker) {
        return None;
    }
    match find_url_token(line) {
        Some((i, j)) => Some(copy_range(line, i, j)),
        None => None,
    }
}

} // verus!
