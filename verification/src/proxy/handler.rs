//! From an incoming HTTP request to the request sent to the replicas, and from
//! the replicas' results to the response given back.
use vstd::prelude::*;
use vstd::utf8::*;
use crate::models::{DegresslyError, DegresslyRequest, HostResults, preferred_result};
use crate::string_map::{StringMap, pairs_to_map};
use crate::text::{
    bytes_eq_ignore_ascii_case, eq_ignore_ascii_case, header_text, header_text_or_empty,
    header_value_text_or_empty, is_visible_ascii_text,
};
use vstd::string::*;

verus! {

/// An HTTP request as it reached the proxy: method, URI, header names with the
/// raw bytes of their values (in the order the server yields them), query
/// parameters, and body.
pub struct InboundRequest {
    pub method: String,
    pub uri: String,
    pub headers: Vec<(String, Vec<u8>)>,
    pub query: Vec<(String, String)>,
    pub body: Vec<u8>,
}

/// The response the proxy gives back: a status and a body.
#[derive(Debug)]
pub struct ProxyResponse {
    pub status: u16,
    pub body: Vec<u8>,
}

/// The value of the first header whose name equals `name` up to ASCII case.
pub open spec fn first_header_value(headers: Seq<(String, Vec<u8>)>, name: Seq<u8>) -> Option<Seq<u8>>
    decreases headers.len(),
{
    if headers.len() == 0 {
        None
    } else if eq_ignore_ascii_case(encode_utf8(headers[0].0@), name) {
        Some(headers[0].1@)
    } else {
        first_header_value(headers.drop_first(), name)
    }
}

/// The trace id of a request: the text of its first `X-Trace-ID` header, or
/// the empty text when there is none or it has no textual form.
pub open spec fn trace_id_of(headers: Seq<(String, Vec<u8>)>) -> Seq<char> {
    match first_header_value(headers, encode_utf8("X-Trace-ID"@)) {
        Some(v) => header_text_or_empty(v),
        None => Seq::empty(),
    }
}

/// Whether a request asks to wait for all replicas: its first `X-Wait-For-All`
/// header reads `true`, in any ASCII case.
pub open spec fn wait_for_all_requested(headers: Seq<(String, Vec<u8>)>) -> bool {
    match first_header_value(headers, encode_utf8("X-Wait-For-All"@)) {
        Some(v) => header_text(v) is Some && eq_ignore_ascii_case(v, encode_utf8("true"@)),
        None => false,
    }
}

/// The headers of a request, collected by name: each name maps to the one-text
/// list holding the text of its last value (the empty text for a value without
/// textual form).
pub open spec fn header_map(headers: Seq<(String, Vec<u8>)>) -> Map<Seq<char>, Seq<Seq<char>>> {
    pairs_to_map(
        headers.map_values(|h: (String, Vec<u8>)| (h.0@, seq![header_text_or_empty(h.1@)])),
    )
}

/// The query parameters of a request, collected by name: each name maps to the
/// one-text list holding its last value.
pub open spec fn query_map(query: Seq<(String, String)>) -> Map<Seq<char>, Seq<Seq<char>>> {
    pairs_to_map(query.map_values(|q: (String, String)| (q.0@, seq![q.1@])))
}

/// The request sent to the replicas for an incoming request: the trace id, the
/// method, the URI, the headers and query parameters collected by name, and
/// the body.
pub open spec fn request_from_inbound(inbound: InboundRequest, request: DegresslyRequest) -> bool {
    &&& request.trace_id@ == trace_id_of(inbound.headers@)
    &&& request.method == inbound.method
    &&& request.url == inbound.uri
    &&& request.headers@ == header_map(inbound.headers@)
    &&& request.body == Some(inbound.body)
    &&& request.params@ == query_map(inbound.query@)
}

/// The status the proxy answers with for a replica's status code: the code
/// itself when it is a valid HTTP status (100 to 999), and 200 otherwise.
pub open spec fn response_status(code: u16) -> u16 {
    if 100 <= code && code <= 999 {
        code
    } else {
        200
    }
}

/// A body, or the empty body when there is none.
pub open spec fn body_or_empty(body: Option<Vec<u8>>) -> Seq<u8> {
    match body {
        Some(b) => b@,
        None => Seq::empty(),
    }
}

/// The response to a caller for what the replicas gave: the error as it is, or
/// the status and body of the preferred result, or an internal error when no
/// replica answered.
pub open spec fn proxy_outcome_matches(
    results: Result<HostResults, DegresslyError>,
    r: Result<ProxyResponse, DegresslyError>,
) -> bool {
    match results {
        Err(e) => r == Err::<ProxyResponse, DegresslyError>(e),
        Ok(m) => match preferred_result(m@) {
            Some(d) => r matches Ok(resp) && resp.status == response_status(d.status_code)
                && resp.body@ == body_or_empty(d.body),
            None => r matches Err(DegresslyError::InternalError(msg)) && msg@
                == "No response available"@,
        },
    }
}

/// The value of the first header whose name equals `name` up to ASCII case.
fn find_header<'a>(headers: &'a Vec<(String, Vec<u8>)>, name: &[u8]) -> (r: Option<&'a Vec<u8>>)
    ensures
        r matches Some(v) ==> first_header_value(headers@, name@) == Some(v@),
        r is None ==> first_header_value(headers@, name@) is None,
{
    let mut i: usize = 0;
    assert(headers@.subrange(0, headers@.len() as int) =~= headers@);
    while i < headers.len()
        invariant
            i <= headers@.len(),
            first_header_value(headers@, name@) == first_header_value(
                headers@.subrange(i as int, headers@.len() as int),
                name@,
            ),
        decreases headers@.len() - i,
    {
        let ghost rest = headers@.subrange(i as int, headers@.len() as int);
        assert(rest[0] == headers@[i as int]);
        assert(rest.drop_first() =~= headers@.subrange(i + 1, headers@.len() as int));
        if bytes_eq_ignore_ascii_case(headers[i].0.as_str().as_bytes(), name) {
            return Some(&headers[i].1);
        }
        i = i + 1;
    }
    assert(headers@.subrange(i as int, headers@.len() as int).len() == 0);
    None
}

/// Collects header values by name, the last value for a name winning.
pub(crate) fn collect_headers(headers: &Vec<(String, Vec<u8>)>) -> (r: StringMap<Vec<String>>)
    ensures
        r@ == header_map(headers@),
{
    let ghost pairs = headers@.map_values(
        |h: (String, Vec<u8>)| (h.0@, seq![header_text_or_empty(h.1@)]),
    );
    let mut m: StringMap<Vec<String>> = StringMap::new();
    let mut i: usize = 0;
    assert(pairs.take(0) =~= Seq::empty());
    while i < headers.len()
        invariant
            i <= headers@.len(),
            pairs.len() == headers@.len(),
            pairs == headers@.map_values(
                |h: (String, Vec<u8>)| (h.0@, seq![header_text_or_empty(h.1@)]),
            ),
            m@ == pairs_to_map(pairs.take(i as int)),
        decreases headers@.len() - i,
    {
        let name = headers[i].0.clone();
        let text = header_value_text_or_empty(headers[i].1.as_slice());
        let values = vec![text];
        assert(values.deep_view() =~= seq![header_text_or_empty(headers@[i as int].1@)]);
        m.insert(name, values);
        assert(pairs.take(i + 1).drop_last() =~= pairs.take(i as int));
        i = i + 1;
    }
    assert(pairs.take(headers@.len() as int) =~= pairs);
    m
}

/// Collects query parameters by name, the last value for a name winning.
fn collect_query(query: &Vec<(String, String)>) -> (r: StringMap<Vec<String>>)
    ensures
        r@ == query_map(query@),
{
    let ghost pairs = query@.map_values(|q: (String, String)| (q.0@, seq![q.1@]));
    let mut m: StringMap<Vec<String>> = StringMap::new();
    let mut i: usize = 0;
    assert(pairs.take(0) =~= Seq::empty());
    while i < query.len()
        invariant
            i <= query@.len(),
            pairs.len() == query@.len(),
            pairs == query@.map_values(|q: (String, String)| (q.0@, seq![q.1@])),
            m@ == pairs_to_map(pairs.take(i as int)),
        decreases query@.len() - i,
    {
        let name = query[i].0.clone();
        let values = vec![query[i].1.clone()];
        assert(values.deep_view() =~= seq![query@[i as int].1@]);
        m.insert(name, values);
        assert(pairs.take(i + 1).drop_last() =~= pairs.take(i as int));
        i = i + 1;
    }
    assert(pairs.take(query@.len() as int) =~= pairs);
    m
}

/// Handles proxied requests by handing them to a multicast service.
pub struct ProxyHandler<S> {
    multicast_service: S,
}

impl<S> ProxyHandler<S> {
    /// The service the handler hands requests to.
    pub closed spec fn service(self) -> S {
        self.multicast_service
    }

    pub fn new(multicast_service: S) -> (h: Self)
        ensures
            h.service() == multicast_service,
    {
        ProxyHandler { multicast_service }
    }

    /// The service the handler hands requests to.
    pub fn multicast_service(&self) -> (r: &S)
        ensures
            *r == self.service(),
    {
        &self.multicast_service
    }

    /// The request to send to the replicas for an incoming request, and whether
    /// the caller asked to wait for all replicas.
    pub fn build_request(inbound: InboundRequest) -> (r: (DegresslyRequest, bool))
        ensures
            request_from_inbound(inbound, r.0),
            r.1 == wait_for_all_requested(inbound.headers@),
            first_header_value(inbound.headers@, encode_utf8("X-Trace-ID"@)) matches Some(v) ==> (
            (forall|i: int|
                0 <= i < v.len() ==> (32 <= #[trigger] v[i] && v[i] <= 126) || v[i] == 9)
                ==> r.0.trace_id@ == decode_utf8(v)),
            first_header_value(inbound.headers@, encode_utf8("X-Trace-ID"@)) is None ==> r.0.trace_id@
                == Seq::<char>::empty(),
            first_header_value(inbound.headers@, encode_utf8("X-Wait-For-All"@)) matches Some(v) ==> (
            r.1 <==> ((forall|i: int|
                0 <= i < v.len() ==> (32 <= #[trigger] v[i] && v[i] <= 126) || v[i] == 9)
                && eq_ignore_ascii_case(v, encode_utf8("true"@)))),
            first_header_value(inbound.headers@, encode_utf8("X-Wait-For-All"@)) is None ==> !r.1,
    {
        let ghost h = inbound.headers@;
        proof {
            if let Some(v) = first_header_value(h, encode_utf8("X-Trace-ID"@)) {
                crate::text::law_header_text_of_visible_bytes(v);
            }
            if let Some(v) = first_header_value(h, encode_utf8("X-Wait-For-All"@)) {
                crate::text::law_header_text_of_visible_bytes(v);
            }
        }
        let InboundRequest { method, uri, headers, query, body } = inbound;
        let trace_id = match find_header(&headers, "X-Trace-ID".as_bytes()) {
            Some(v) => header_value_text_or_empty(v.as_slice()),
            None => String::new(),
        };
        let wait_for_all = match find_header(&headers, "X-Wait-For-All".as_bytes()) {
            Some(v) => is_visible_ascii_text(v.as_slice()) && bytes_eq_ignore_ascii_case(
                v.as_slice(),
                "true".as_bytes(),
            ),
            None => false,
        };
        let header_values = collect_headers(&headers);
        let params = collect_query(&query);
        let request = DegresslyRequest {
            trace_id,
            method,
            url: uri,
            headers: header_values,
            body: Some(body),
            params,
        };
        (request, wait_for_all)
    }

    /// The response to give back for what the replicas gave: an error is passed
    /// on; otherwise the primary's result is used, or failing that another
    /// replica's, its status kept when it is a valid HTTP status (else 200) and
    /// its body kept (empty when it has none); when no replica answered, the
    /// result is an internal error.
    pub fn build_response(results: Result<HostResults, DegresslyError>) -> (r: Result<
        ProxyResponse,
        DegresslyError,
    >)
        ensures
            proxy_outcome_matches(results, r),
            results matches Ok(m) ==> (preferred_result(m@) matches Some(d) ==> (r matches Ok(resp)
                && resp.body@ == body_or_empty(d.body) && ((100 <= d.status_code
                && d.status_code <= 999) ==> resp.status == d.status_code) && (!(100
                <= d.status_code && d.status_code <= 999) ==> resp.status == 200))),
    {
        match results {
            Err(e) => Err(e),
            Ok(m) => match m.into_preferred() {
                Some(d) => {
                    let status: u16 = if 100 <= d.status_code && d.status_code <= 999 {
                        d.status_code
                    } else {
                        200
                    };
                    let body = match d.body {
                        Some(b) => b,
                        None => Vec::new(),
                    };
                    Ok(ProxyResponse { status, body })
                },
                None => Err(
                    DegresslyError::InternalError(String::from_str("No response available")),
                ),
            },
        }
    }
}

} // verus!
