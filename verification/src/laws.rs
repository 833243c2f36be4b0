//! The guarantees of the routing pipeline, stated and proved once over
//! all tokens, paths and queries.

use vstd::prelude::*;
use crate::router::{
    authorized, has_prefix, lemma_concat_prefix, lemma_prefix_char, lemma_prefix_trans,
    normalize_marker, resolved_target, route, trim_slashes,
};

verus! {

/// A path that does not start with the token, or any path at all when the
/// token is empty, resolves to nothing: the caller is answered as if the
/// route did not exist, whatever the method or body was.
pub proof fn lemma_unauthorized_is_not_found(
    token: Seq<char>,
    path: Seq<char>,
    query: Option<Seq<char>>,
)
    requires
        !authorized(token, path),
    ensures
        route(token, path, query) is None,
{
}

/// Stripping a non-empty token from a path it leads gives back exactly
/// what followed it, and such a path is always authorized.
pub proof fn lemma_token_stripped(token: Seq<char>, rest: Seq<char>)
    requires
        token.len() > 0,
    ensures
        authorized(token, token + rest),
        (token + rest).skip(token.len() as int) == rest,
{
    assert(token =~= (token + rest).subrange(0, token.len() as int));
    assert((token + rest).skip(token.len() as int) =~= rest);
}

/// A path that is exactly the token resolves to the bare implicit scheme
/// with an empty host: a defined edge case, handed to the outbound call,
/// which will fail on it, rather than rejected here.
pub proof fn lemma_exact_token_resolves_to_empty_host(token: Seq<char>)
    requires
        token.len() > 0,
    ensures
        route(token, token, Option::None) == Option::Some("https://"@),
{
    reveal_strlit("http://");
    reveal_strlit("https://");
    reveal_strlit("http:/");
    reveal_strlit("https:/");
    assert(token =~= token.subrange(0, token.len() as int));
    let rem = token.skip(token.len() as int);
    assert(rem =~= Seq::<char>::empty());
    assert(trim_slashes(rem) == rem);
    assert(normalize_marker(rem) == rem);
    assert("https://"@ + rem =~= "https://"@);
}

/// A remainder that names no scheme is forwarded to that host and path
/// over the implicit `https://`.
pub proof fn lemma_implicit_scheme(token: Seq<char>)
    requires
        token.len() > 0,
    ensures
        route(token, token + "example.com/foo"@, Option::None) == Option::Some(
            "https://example.com/foo"@,
        ),
{
    reveal_strlit("http://");
    reveal_strlit("https://");
    reveal_strlit("http:/");
    reveal_strlit("https:/");
    reveal_strlit("example.com/foo");
    reveal_strlit("https://example.com/foo");
    lemma_token_stripped(token, "example.com/foo"@);
    let s = "example.com/foo"@;
    assert(trim_slashes(s) == s);
    assert(!has_prefix(s, "http://"@)) by {
        if has_prefix(s, "http://"@) {
            lemma_prefix_char(s, "http://"@, 0);
        }
    }
    assert(!has_prefix(s, "https://"@)) by {
        if has_prefix(s, "https://"@) {
            lemma_prefix_char(s, "https://"@, 0);
        }
    }
    assert(!has_prefix(s, "http:/"@)) by {
        if has_prefix(s, "http:/"@) {
            lemma_prefix_char(s, "http:/"@, 0);
        }
    }
    assert(!has_prefix(s, "https:/"@)) by {
        if has_prefix(s, "https:/"@) {
            lemma_prefix_char(s, "https:/"@, 0);
        }
    }
    assert("https://"@ + s =~= "https://example.com/foo"@);
}

/// A remainder that names `http://` keeps its scheme: it is not forced to
/// `https`.
pub proof fn lemma_explicit_scheme_preserved(token: Seq<char>)
    requires
        token.len() > 0,
    ensures
        route(token, token + "http://example.com/foo"@, Option::None) == Option::Some(
            "http://example.com/foo"@,
        ),
{
    reveal_strlit("http://");
    reveal_strlit("https://");
    reveal_strlit("http:/");
    reveal_strlit("https:/");
    reveal_strlit("http://example.com/foo");
    lemma_token_stripped(token, "http://example.com/foo"@);
    let s = "http://example.com/foo"@;
    assert(trim_slashes(s) == s);
    assert(has_prefix(s, "http://"@)) by {
        assert("http://"@ =~= s.subrange(0, 7));
    }
    assert(has_prefix(s, "http:/"@)) by {
        assert("http:/"@ =~= s.subrange(0, 6));
    }
}

/// A marker whose two slashes an ingress collapsed into one names the
/// same scheme: the marker is rewritten to its canonical two-slash form.
pub proof fn lemma_collapsed_marker_normalized(token: Seq<char>)
    requires
        token.len() > 0,
    ensures
        route(token, token + "http:/example.com"@, Option::None) == Option::Some(
            "http://example.com"@,
        ),
{
    reveal_strlit("http://");
    reveal_strlit("https://");
    reveal_strlit("http:/");
    reveal_strlit("https:/");
    reveal_strlit("http:/example.com");
    reveal_strlit("example.com");
    reveal_strlit("http://example.com");
    lemma_token_stripped(token, "http:/example.com"@);
    let s = "http:/example.com"@;
    assert(trim_slashes(s) == s);
    assert(!has_prefix(s, "http://"@)) by {
        if has_prefix(s, "http://"@) {
            lemma_prefix_char(s, "http://"@, 6);
        }
    }
    assert(!has_prefix(s, "https://"@)) by {
        if has_prefix(s, "https://"@) {
            lemma_prefix_char(s, "https://"@, 4);
        }
    }
    assert(has_prefix(s, "http:/"@)) by {
        assert("http:/"@ =~= s.subrange(0, 6));
    }
    assert(s.skip(6) =~= "example.com"@);
    let t = normalize_marker(s);
    assert(t == "http://"@ + "example.com"@);
    assert(has_prefix(t, "http:/"@)) by {
        lemma_concat_prefix("http://"@, "example.com"@);
        assert(has_prefix("http://"@, "http:/"@)) by {
            assert("http:/"@ =~= "http://"@.subrange(0, 6));
        }
        lemma_prefix_trans(t, "http://"@, "http:/"@);
    }
    assert(t =~= "http://example.com"@);
}

/// The query string is appended verbatim, a `?` between target and query,
/// and an absent query adds nothing.
pub proof fn lemma_query_appended_verbatim(token: Seq<char>, path: Seq<char>, q: Seq<char>)
    requires
        authorized(token, path),
    ensures
        route(token, path, Option::None) == Option::Some(resolved_target(token, path)),
        route(token, path, Option::Some(q)) == Option::Some(
            resolved_target(token, path) + "?"@ + q,
        ),
{
}

/// Routing is a function of the token, the path and the query alone: the
/// same request resolves to the same target every time, with no state
/// kept between calls.
pub proof fn lemma_route_deterministic(
    token1: Seq<char>,
    path1: Seq<char>,
    query1: Option<Seq<char>>,
    token2: Seq<char>,
    path2: Seq<char>,
    query2: Option<Seq<char>>,
)
    requires
        token1 == token2,
        path1 == path2,
        query1 == query2,
    ensures
        route(token1, path1, query1) == route(token2, path2, query2),
{
}

} // verus!

