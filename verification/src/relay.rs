//! Relay of an authorized request to its target and of the upstream
//! response back to the caller.
//!
//! Bodies are streamed, never buffered: the inbound body is piped into the
//! outbound call and the upstream body back to the caller by the server
//! around this crate, each consumed at most once. This module holds what
//! can be decided from plain values: which headers the outbound call
//! carries, and which reply each upstream outcome maps to.

use vstd::prelude::*;
use vstd::string::*;
use crate::router::{authorized, query_view, resolve_request, resolved_target, with_query};

verus! {

/// One header of a request or response: a name and an uninterpreted byte
/// value.
pub struct Header {
    pub name: String,
    pub value: Vec<u8>,
}

/// Whether a header name is `Host`, compared without regard to ASCII case,
/// as header names are case-insensitive on the wire.
pub open spec fn is_host_name(name: Seq<char>) -> bool {
    &&& name.len() == 4
    &&& (name[0] == 'h' || name[0] == 'H')
    &&& (name[1] == 'o' || name[1] == 'O')
    &&& (name[2] == 's' || name[2] == 'S')
    &&& (name[3] == 't' || name[3] == 'T')
}

/// The headers an outbound call carries: every inbound header in its
/// original order, except `Host`, which must not be forwarded verbatim;
/// the outbound client derives its own `Host` from the target URL.
pub open spec fn forwarded_headers(hs: Seq<Header>) -> Seq<Header>
    decreases hs.len(),
{
    if hs.len() == 0 {
        Seq::empty()
    } else if is_host_name(hs[0].name@) {
        forwarded_headers(hs.skip(1))
    } else {
        seq![hs[0]] + forwarded_headers(hs.skip(1))
    }
}

/// Decides whether a header name is `Host` in any ASCII case.
pub fn header_is_host(name: &str) -> (b: bool)
    ensures
        b == is_host_name(name@),
{
    if name.unicode_len() != 4 {
        return false;
    }
    let c0 = name.get_char(0);
    let c1 = name.get_char(1);
    let c2 = name.get_char(2);
    let c3 = name.get_char(3);
    (c0 == 'h' || c0 == 'H') && (c1 == 'o' || c1 == 'O') && (c2 == 's' || c2 == 'S') && (c3 == 't'
        || c3 == 'T')
}

/// Copies the inbound headers for the outbound call, dropping `Host` and
/// keeping everything else in order.
pub fn filter_request_headers(headers: Vec<Header>) -> (r: Vec<Header>)
    ensures
        r@ == forwarded_headers(headers@),
{
    let mut rest = headers;
    let mut kept: Vec<Header> = Vec::new();
    while rest.len() > 0
        invariant
            forwarded_headers(headers@) == kept@ + forwarded_headers(rest@),
        decreases rest.len(),
    {
        let ghost before = rest@;
        let h = rest.remove(0);
        proof {
            assert(before.remove(0) =~= before.skip(1));
        }
        if header_is_host(h.name.as_str()) {
            assert(kept@ + forwarded_headers(before) =~= kept@ + forwarded_headers(rest@));
        } else {
            let ghost kept_before = kept@;
            kept.push(h);
            proof {
                assert(kept_before + (seq![h] + forwarded_headers(before.skip(1))) =~= kept@
                    + forwarded_headers(before.skip(1)));
            }
        }
    }
    proof {
        assert(kept@ + forwarded_headers(rest@) =~= kept@);
    }
    kept
}

/// No forwarded header is `Host`, whatever the inbound headers were.
proof fn lemma_no_host_at(hs: Seq<Header>, i: int)
    requires
        0 <= i < forwarded_headers(hs).len(),
    ensures
        !is_host_name(forwarded_headers(hs)[i].name@),
    decreases hs.len(),
{
    if hs.len() == 0 {
    } else if is_host_name(hs[0].name@) {
        lemma_no_host_at(hs.skip(1), i);
    } else {
        if i == 0 {
            assert(forwarded_headers(hs)[0] == hs[0]);
        } else {
            lemma_no_host_at(hs.skip(1), i - 1);
            assert(forwarded_headers(hs)[i] == forwarded_headers(hs.skip(1))[i - 1]);
        }
    }
}

/// The `Host` header is never among the forwarded headers.
pub proof fn lemma_host_never_forwarded(hs: Seq<Header>)
    ensures
        forall|i: int|
            0 <= i < forwarded_headers(hs).len() ==> !is_host_name(
                #[trigger] forwarded_headers(hs)[i].name@,
            ),
{
    assert forall|i: int| 0 <= i < forwarded_headers(hs).len() implies !is_host_name(
        forwarded_headers(hs)[i].name@,
    ) by {
        lemma_no_host_at(hs, i);
    }
}

/// The status and headers of an upstream response whose body still waits
/// in the upstream connection.
pub struct ResponseHead {
    pub status: u16,
    pub headers: Vec<Header>,
}

/// What the outbound call came back with: an upstream response, or a
/// transport failure (name resolution, connection, TLS, protocol) before
/// any response arrived.
pub enum UpstreamOutcome {
    Reached(ResponseHead),
    TransportFailed,
}

/// What the body of a reply to the inbound caller is: the upstream body,
/// piped through verbatim, or a short diagnostic text of this proxy's own.
pub enum ReplyBody {
    UpstreamStream,
    Diagnostic(String),
}

/// A reply to the inbound caller.
pub struct Reply {
    pub status: u16,
    pub headers: Vec<Header>,
    pub body: ReplyBody,
}

/// Classifies the outcome of the outbound call. An upstream response is
/// relayed verbatim: same status, every header in order, the body piped
/// through. A transport failure becomes a 502 with a short diagnostic
/// body; it is never retried.
pub fn reply_for_outcome(outcome: UpstreamOutcome) -> (r: Reply)
    ensures
        outcome matches UpstreamOutcome::Reached(head) ==> r.status == head.status && r.headers@
            == head.headers@ && r.body is UpstreamStream,
        outcome is TransportFailed ==> r.status == 502 && r.headers@.len() == 0 && (r.body matches
        ReplyBody::Diagnostic(m) && m@ == "Proxy request failed"@),
{
    match outcome {
        UpstreamOutcome::Reached(head) => Reply {
            status: head.status,
            headers: head.headers,
            body: ReplyBody::UpstreamStream,
        },
        UpstreamOutcome::TransportFailed => Reply {
            status: 502,
            headers: Vec::new(),
            body: ReplyBody::Diagnostic(String::from_str("Proxy request failed")),
        },
    }
}

/// The reply for a request that failed authorization or matched no route:
/// a plain 404, indistinguishable between the two, so that nothing leaks
/// about the proxy's existence.
pub fn not_found_reply() -> (r: Reply)
    ensures
        r.status == 404,
        r.headers@.len() == 0,
        r.body matches ReplyBody::Diagnostic(m) && m@ == "nothing to see here"@,
{
    Reply {
        status: 404,
        headers: Vec::new(),
        body: ReplyBody::Diagnostic(String::from_str("nothing to see here")),
    }
}

/// The reply when the response to the inbound caller cannot be assembled
/// from the upstream status and headers for structural reasons.
pub fn assembly_failure_reply() -> (r: Reply)
    ensures
        r.status == 500,
        r.headers@.len() == 0,
        r.body matches ReplyBody::Diagnostic(m) && m@ == "Failed to construct response"@,
{
    Reply {
        status: 500,
        headers: Vec::new(),
        body: ReplyBody::Diagnostic(String::from_str("Failed to construct response")),
    }
}

/// Everything the outbound call needs: the inbound method unchanged, the
/// resolved target URL, and the filtered headers.
pub struct OutboundPlan {
    pub method: String,
    pub target: String,
    pub headers: Vec<Header>,
}

/// Authorizes one inbound request and plans the outbound call for it:
/// same method, the resolved target URL with the query appended verbatim,
/// and every inbound header but `Host`. Returns nothing exactly when the
/// request fails authorization and is to be answered as not found.
pub fn plan_request(
    token: &str,
    method: String,
    path: &str,
    query: Option<&str>,
    headers: Vec<Header>,
) -> (r: Option<OutboundPlan>)
    ensures
        r is Some <==> authorized(token@, path@),
        r matches Some(p) ==> p.method@ == method@ && p.target@ == with_query(
            resolved_target(token@, path@),
            query_view(query),
        ) && p.headers@ == forwarded_headers(headers@),
{
    match resolve_request(token, path, query) {
        Some(target) => Some(
            OutboundPlan { method, target, headers: filter_request_headers(headers) },
        ),
        None => None,
    }
}

} // verus!
