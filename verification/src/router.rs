//! Resolution of an inbound request path into a target URL.
//!
//! A request is authorized when the configured secret token is non-empty
//! and is a literal prefix of the raw request path. The rest of the path,
//! after leading slashes are dropped and an `http:`/`https:` marker is
//! normalized to its canonical two-slash form, names the target host and
//! path; a remainder without a scheme marker gets an implicit `https://`.
//! The query string, when present, is appended verbatim.

use vstd::prelude::*;
use vstd::string::*;

verus! {

/// Whether `prefix` is a literal leading part of `s`.
pub open spec fn has_prefix(s: Seq<char>, prefix: Seq<char>) -> bool {
    prefix.is_prefix_of(s)
}

/// A path is authorized exactly when the token is non-empty and is a
/// literal prefix of the path.
pub open spec fn authorized(token: Seq<char>, path: Seq<char>) -> bool {
    token.len() > 0 && has_prefix(path, token)
}

/// The remainder with its leading `/` characters removed.
pub open spec fn trim_slashes(s: Seq<char>) -> Seq<char>
    decreases s.len(),
{
    if s.len() > 0 && s[0] == '/' {
        trim_slashes(s.skip(1))
    } else {
        s
    }
}

/// A leading `http:` or `https:` marker followed by one or two slashes is
/// rewritten to the canonical two-slash form; intermediate proxies may
/// collapse `//` into `/`, so the single-slash form names the same scheme.
/// Anything else is left alone.
pub open spec fn normalize_marker(s: Seq<char>) -> Seq<char> {
    if has_prefix(s, "http://"@) || has_prefix(s, "https://"@) {
        s
    } else if has_prefix(s, "http:/"@) {
        "http://"@ + s.skip(6)
    } else if has_prefix(s, "https:/"@) {
        "https://"@ + s.skip(7)
    } else {
        s
    }
}

/// A remainder that still carries no scheme marker is a host and path with
/// an implicit `https://` in front.
pub open spec fn ensure_scheme(s: Seq<char>) -> Seq<char> {
    if has_prefix(s, "http:/"@) || has_prefix(s, "https:/"@) {
        s
    } else {
        "https://"@ + s
    }
}

/// The target URL that an authorized path resolves to: the path with the
/// token stripped, leading slashes dropped, the scheme marker normalized,
/// and an implicit `https://` added when none was given. An empty
/// remainder resolves to the bare `https://`, an invalid target that the
/// outbound call will refuse; it is not rejected here.
pub open spec fn resolved_target(token: Seq<char>, path: Seq<char>) -> Seq<char> {
    ensure_scheme(normalize_marker(trim_slashes(path.skip(token.len() as int))))
}

/// The original query string is appended verbatim, never re-encoded.
pub open spec fn with_query(target: Seq<char>, query: Option<Seq<char>>) -> Seq<char> {
    match query {
        Option::Some(q) => target + "?"@ + q,
        Option::None => target,
    }
}

/// The routing decision for one inbound request: the full target URL when
/// the path is authorized, nothing otherwise.
pub open spec fn route(token: Seq<char>, path: Seq<char>, query: Option<Seq<char>>) -> Option<
    Seq<char>,
> {
    if authorized(token, path) {
        Option::Some(with_query(resolved_target(token, path), query))
    } else {
        Option::None
    }
}

/// The view of an optional query string.
pub open spec fn query_view(query: Option<&str>) -> Option<Seq<char>> {
    match query {
        Option::Some(q) => Option::Some(q@),
        Option::None => Option::None,
    }
}

/// Each character of a prefix is the character of the whole at the same
/// position.
pub proof fn lemma_prefix_char(s: Seq<char>, p: Seq<char>, i: int)
    requires
        has_prefix(s, p),
        0 <= i < p.len(),
    ensures
        s[i] == p[i],
{
    assert(p =~= s.subrange(0, p.len() as int));
    assert(s.subrange(0, p.len() as int)[i] == s[i]);
}

/// A prefix of a prefix is a prefix of the whole.
pub proof fn lemma_prefix_trans(s: Seq<char>, p: Seq<char>, q: Seq<char>)
    requires
        has_prefix(s, p),
        has_prefix(p, q),
    ensures
        has_prefix(s, q),
{
    assert forall|i: int| 0 <= i < q.len() implies s[i] == q[i] by {
        lemma_prefix_char(s, p, i);
        lemma_prefix_char(p, q, i);
    }
    assert(q =~= s.subrange(0, q.len() as int));
}

/// A sequence is a prefix of anything it leads.
pub proof fn lemma_concat_prefix(a: Seq<char>, b: Seq<char>)
    ensures
        has_prefix(a + b, a),
{
    assert(a =~= (a + b).subrange(0, a.len() as int));
}

/// The lengths and mutual prefixes of the four scheme markers.
pub proof fn lemma_marker_facts()
    ensures
        "http://"@.len() == 7,
        "https://"@.len() == 8,
        "http:/"@.len() == 6,
        "https:/"@.len() == 7,
        "?"@.len() == 1,
        has_prefix("http://"@, "http:/"@),
        has_prefix("https://"@, "https:/"@),
{
    reveal_strlit("http://");
    reveal_strlit("https://");
    reveal_strlit("http:/");
    reveal_strlit("https:/");
    reveal_strlit("?");
    assert("http:/"@ =~= "http://"@.subrange(0, 6));
    assert("https:/"@ =~= "https://"@.subrange(0, 7));
}

/// Dropping the characters before the first non-slash position is all the
/// trimming there is to do.
proof fn lemma_trim_skip(s: Seq<char>, i: int)
    requires
        0 <= i <= s.len(),
        forall|j: int| 0 <= j < i ==> s[j] == '/',
        i == s.len() || s[i] != '/',
    ensures
        trim_slashes(s) == s.skip(i),
    decreases i,
{
    if i == 0 {
        assert(s.skip(0) =~= s);
    } else {
        lemma_trim_skip(s.skip(1), i - 1);
        assert(s.skip(1).skip(i - 1) =~= s.skip(i));
    }
}

/// Compares character by character whether `prefix` leads `s`.
pub fn str_has_prefix(s: &str, prefix: &str) -> (b: bool)
    ensures
        b == has_prefix(s@, prefix@),
{
    let n = prefix.unicode_len();
    if n > s.unicode_len() {
        return false;
    }
    let mut i: usize = 0;
    while i < n
        invariant
            n == prefix@.len(),
            n <= s@.len(),
            i <= n,
            forall|j: int| 0 <= j < i ==> s@[j] == prefix@[j],
        decreases n - i,
    {
        if s.get_char(i) != prefix.get_char(i) {
            assert(!has_prefix(s@, prefix@)) by {
                if has_prefix(s@, prefix@) {
                    lemma_prefix_char(s@, prefix@, i as int);
                }
            }
            return false;
        }
        i = i + 1;
    }
    assert(prefix@ =~= s@.subrange(0, n as int));
    true
}

/// Authorizes the raw request path against the token and resolves the
/// target URL, the query string appended verbatim. Returns nothing when
/// the token is empty or the path does not start with it: such a request
/// is indistinguishable from an unknown route.
pub fn resolve_request(token: &str, path: &str, query: Option<&str>) -> (r: Option<String>)
    ensures
        r is Some <==> authorized(token@, path@),
        r matches Some(t) ==> t@ == with_query(resolved_target(token@, path@), query_view(query)),
{
    proof {
        lemma_marker_facts();
    }
    let tlen = token.unicode_len();
    let plen = path.unicode_len();
    if tlen == 0 || !str_has_prefix(path, token) {
        return None;
    }
    let rem = path.substring_char(tlen, plen);
    assert(rem@ =~= path@.skip(tlen as int));

    // Drop the leading slashes of the remainder. An empty remainder stays
    // empty, which resolves below to the bare implicit scheme.
    let rlen = rem.unicode_len();
    let mut i: usize = 0;
    while i < rlen && rem.get_char(i) == '/'
        invariant
            rlen == rem@.len(),
            i <= rlen,
            forall|j: int| 0 <= j < i ==> rem@[j] == '/',
        decreases rlen - i,
    {
        i = i + 1;
    }
    let body = rem.substring_char(i, rlen);
    proof {
        lemma_trim_skip(rem@, i as int);
        assert(body@ =~= rem@.skip(i as int));
        assert(body@ == trim_slashes(rem@));
    }
    let blen = body.unicode_len();

    // Normalize the scheme marker and add the implicit scheme.
    let target: String = if str_has_prefix(body, "http://") || str_has_prefix(
        body,
        "https://",
    ) {
        proof {
            if has_prefix(body@, "http://"@) {
                lemma_prefix_trans(body@, "http://"@, "http:/"@);
            } else {
                lemma_prefix_trans(body@, "https://"@, "https:/"@);
            }
        }
        String::from_str(body)
    } else if str_has_prefix(body, "http:/") {
        let mut t = String::from_str("http://");
        t.append(body.substring_char(6, blen));
        proof {
            assert(body@.subrange(6, blen as int) =~= body@.skip(6));
            lemma_concat_prefix("http://"@, body@.skip(6));
            lemma_prefix_trans(t@, "http://"@, "http:/"@);
        }
        t
    } else if str_has_prefix(body, "https:/") {
        let mut t = String::from_str("https://");
        t.append(body.substring_char(7, blen));
        proof {
            assert(body@.subrange(7, blen as int) =~= body@.skip(7));
            lemma_concat_prefix("https://"@, body@.skip(7));
            lemma_prefix_trans(t@, "https://"@, "https:/"@);
        }
        t
    } else {
        let mut t = String::from_str("https://");
        t.append(body);
        t
    };
    assert(target@ == ensure_scheme(normalize_marker(trim_slashes(path@.skip(tlen as int)))));

    // Append the original query string verbatim.
    match query {
        Some(q) => {
            let mut full = target;
            full.append("?");
            full.append(q);
            Some(full)
        },
        None => Some(target),
    }
}

} // verus!
