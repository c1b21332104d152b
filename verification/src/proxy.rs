//! The request-forwarding proxy: an inbound call is relayed to the
//! function instance with its method, headers, query and body intact, and
//! the instance's answer is relayed back with its status, body and
//! headers, save the hop-by-hop `Transfer-Encoding` header.

use vstd::prelude::*;

use crate::text::{lower_chars, push_char, to_ascii_lower};
use crate::urls::{create_url, spec_create_url, QueryParam};

verus! {

/// Seconds the outbound call to an instance may take.
pub const DOWNSTREAM_TIMEOUT_SECONDS: u64 = 20;

/// One header of a request or a response.
pub struct HeaderEntry {
    pub name: String,
    pub value: String,
}

/// Whether a header is the hop-by-hop `Transfer-Encoding` header, whose
/// name is matched without regard to ASCII case.
pub open spec fn spec_is_transfer_encoding(h: HeaderEntry) -> bool {
    lower_chars(h.name@) == "transfer-encoding"@
}

/// The downstream response headers that are relayed upstream: all of them
/// but `Transfer-Encoding`.
pub open spec fn spec_kept_headers(headers: Seq<HeaderEntry>) -> Seq<HeaderEntry> {
    headers.filter(|h: HeaderEntry| !spec_is_transfer_encoding(h))
}

fn is_transfer_encoding(name: &str) -> (r: bool)
    ensures
        r == (lower_chars(name@) == "transfer-encoding"@),
{
    let lowered = to_ascii_lower(name);
    let te: String = "transfer-encoding".to_owned();
    lowered.eq(&te)
}

fn clone_header(h: &HeaderEntry) -> (r: HeaderEntry)
    ensures
        r == *h,
{
    HeaderEntry { name: h.name.clone(), value: h.value.clone() }
}

/// The headers of the outbound request: the inbound headers, copied
/// verbatim and in order.
pub fn request_headers(inbound: &Vec<HeaderEntry>) -> (r: Vec<HeaderEntry>)
    ensures
        r@ == inbound@,
{
    let n: usize = inbound.len();
    let mut out: Vec<HeaderEntry> = Vec::new();
    let mut i: usize = 0;
    while i < n
        invariant
            i <= n,
            n == inbound@.len(),
            out@ =~= inbound@.take(i as int),
        decreases n - i,
    {
        out.push(clone_header(&inbound[i]));
        proof {
            assert(out@ =~= inbound@.take(i + 1));
        }
        i = i + 1;
    }
    proof {
        assert(inbound@.take(n as int) =~= inbound@);
    }
    out
}

/// The headers relayed upstream from a downstream response: every header
/// in order, with `Transfer-Encoding` removed.
pub fn response_headers(downstream: &Vec<HeaderEntry>) -> (r: Vec<HeaderEntry>)
    ensures
        r@ == spec_kept_headers(downstream@),
{
    let n: usize = downstream.len();
    let mut out: Vec<HeaderEntry> = Vec::new();
    let mut i: usize = 0;
    proof {
        reveal(Seq::filter);
        assert(out@ =~= spec_kept_headers(downstream@.take(0)));
    }
    while i < n
        invariant
            i <= n,
            n == downstream@.len(),
            out@ == spec_kept_headers(downstream@.take(i as int)),
        decreases n - i,
    {
        let h = &downstream[i];
        let drop_it = is_transfer_encoding(h.name.as_str());
        if !drop_it {
            out.push(clone_header(h));
        }
        proof {
            reveal(Seq::filter);
            assert(downstream@.take(i + 1).drop_last() =~= downstream@.take(i as int));
            assert(downstream@.take(i + 1).last() == downstream@[i as int]);
        }
        i = i + 1;
    }
    proof {
        assert(downstream@.take(n as int) =~= downstream@);
    }
    out
}

/// Round-trip of response headers: everything a downstream response
/// carries, except `Transfer-Encoding`, appears in the relayed reply, and
/// the relayed reply carries nothing the downstream response did not.
pub proof fn lemma_response_headers_round_trip(downstream: Seq<HeaderEntry>)
    ensures
        forall|i: int|
            0 <= i < downstream.len() && !spec_is_transfer_encoding(#[trigger] downstream[i])
                ==> spec_kept_headers(downstream).contains(downstream[i]),
        forall|j: int|
            0 <= j < spec_kept_headers(downstream).len() ==> downstream.contains(
                #[trigger] spec_kept_headers(downstream)[j],
            ) && !spec_is_transfer_encoding(spec_kept_headers(downstream)[j]),
{
    broadcast use vstd::seq_lib::group_filter_ensures;

    let pred = |h: HeaderEntry| !spec_is_transfer_encoding(h);
    assert forall|j: int| 0 <= j < spec_kept_headers(downstream).len() implies downstream.contains(
        #[trigger] spec_kept_headers(downstream)[j],
    ) && !spec_is_transfer_encoding(spec_kept_headers(downstream)[j]) by {
        downstream.lemma_filter_contains_rev(pred, spec_kept_headers(downstream)[j]);
    }
}

/// The HTTP method of an inbound invocation, as the proxy tells them
/// apart: only GET and POST are forwarded.
pub enum Method {
    Get,
    Post,
    /// Any other method, carrying its name as it appeared on the wire.
    Other(String),
}

/// The reply body for an unsupported method.
pub open spec fn spec_unsupported_method_body(m: Seq<char>) -> Seq<char> {
    "We don't currently support "@ + m + " functions"@
}

/// What the proxy decides to do with an inbound call.
pub enum RequestPlan {
    /// Send a GET to the URL with the inbound headers.
    ForwardGet { url: String, headers: Vec<HeaderEntry> },
    /// Buffer the inbound body fully, then POST it to the URL with the
    /// inbound headers.
    ForwardPost { url: String, headers: Vec<HeaderEntry> },
    /// Answer at once without forwarding anything.
    Reject { status: u16, body: String },
}

/// Decide how an inbound call is forwarded: GET and POST go downstream to
/// `http://<addr>/<name>` with the encoded query and the verbatim inbound
/// headers; any other method is answered with 405 and a message that
/// names it.
pub fn plan_request(
    method: &Method,
    addr: &str,
    name: &str,
    query: &Vec<QueryParam>,
    headers: &Vec<HeaderEntry>,
) -> (r: RequestPlan)
    ensures
        match *method {
            Method::Get => r matches RequestPlan::ForwardGet { url, headers: h } && url@
                == spec_create_url(addr@, name@, query@) && h@ == headers@,
            Method::Post => r matches RequestPlan::ForwardPost { url, headers: h } && url@
                == spec_create_url(addr@, name@, query@) && h@ == headers@,
            Method::Other(m) => r matches RequestPlan::Reject { status, body } && status == 405
                && body@ == spec_unsupported_method_body(m@),
        },
{
    match method {
        Method::Get => RequestPlan::ForwardGet {
            url: create_url(addr, name, query),
            headers: request_headers(headers),
        },
        Method::Post => RequestPlan::ForwardPost {
            url: create_url(addr, name, query),
            headers: request_headers(headers),
        },
        Method::Other(m) => {
            let mut body: String = "We don't currently support ".to_owned();
            body.append(m.as_str());
            body.append(" functions");
            proof {
                assert(body@ =~= spec_unsupported_method_body(m@));
            }
            RequestPlan::Reject { status: 405, body }
        },
    }
}

/// The reply the proxy hands back upstream.
pub struct HttpReply {
    pub status: u16,
    pub headers: Vec<HeaderEntry>,
    pub body: String,
}

/// How the downstream exchange ended, as seen by the proxy.
pub enum DownstreamResult {
    /// The inbound POST body could not be buffered.
    BodyUnreadable,
    /// The outbound call itself failed.
    SendFailed,
    /// The call returned, but its body could not be read.
    ResponseUnreadable,
    /// The call returned a status, headers and a text body.
    Response { status: u16, headers: Vec<HeaderEntry>, body: String },
}

/// Turn the outcome of the downstream exchange into the upstream reply:
/// a response is relayed with its status and body and with every header
/// but `Transfer-Encoding`; each failure is answered with the fixed
/// status and message the platform documents.
pub fn relay_response(result: DownstreamResult) -> (r: HttpReply)
    ensures
        match result {
            DownstreamResult::BodyUnreadable => r.status == 400 && r.body@
                == "Could not read request body"@ && r.headers@.len() == 0,
            DownstreamResult::SendFailed => r.status == 500 && r.body@
                == "Failed to make downstream request"@ && r.headers@.len() == 0,
            DownstreamResult::ResponseUnreadable => r.status == 500 && r.body@
                == "Failed to read downstream response"@ && r.headers@.len() == 0,
            DownstreamResult::Response { status, headers, body } => r.status == status && r.body@
                == body@ && r.headers@ == spec_kept_headers(headers@),
        },
{
    match result {
        DownstreamResult::BodyUnreadable => HttpReply {
            status: 400,
            headers: Vec::new(),
            body: "Could not read request body".to_owned(),
        },
        DownstreamResult::SendFailed => HttpReply {
            status: 500,
            headers: Vec::new(),
            body: "Failed to make downstream request".to_owned(),
        },
        DownstreamResult::ResponseUnreadable => HttpReply {
            status: 500,
            headers: Vec::new(),
            body: "Failed to read downstream response".to_owned(),
        },
        DownstreamResult::Response { status, headers, body } => HttpReply {
            status,
            headers: response_headers(&headers),
            body,
        },
    }
}

} // verus!
