//! Fanning a request out to the three replicas: the request each replica gets,
//! the result recorded for each answer, and the results handed back.
use vstd::prelude::*;
use vstd::utf8::*;
use vstd::string::*;
use crate::models::{DegresslyError, DegresslyRequest, DownstreamResult, HostResults, HostType, error_display};
use crate::proxy::handler::{collect_headers, header_map};

verus! {

/// A byte allowed in an HTTP method: a letter, a digit, or one of
/// `! # $ % & ' * + - . ^ _ ` | ~`.
pub open spec fn is_method_char(b: u8) -> bool {
    ||| (65 <= b && b <= 90)
    ||| (97 <= b && b <= 122)
    ||| (48 <= b && b <= 57)
    ||| b == 33 || b == 35 || b == 36 || b == 37 || b == 38 || b == 39
    ||| b == 42 || b == 43 || b == 45 || b == 46
    ||| b == 94 || b == 95 || b == 96 || b == 124 || b == 126
}

/// A valid HTTP method: one or more method bytes.
pub open spec fn is_method_token(bytes: Seq<u8>) -> bool {
    bytes.len() > 0 && forall|i: int| 0 <= i < bytes.len() ==> #[trigger] is_method_char(bytes[i])
}

/// `reqwest::Method::from_bytes` (the `http` crate's): it accepts exactly the
/// non-empty byte strings made of method characters, and its error displays as
/// `invalid HTTP method`.
#[verifier::external_body]
fn check_method(bytes: &[u8]) -> (r: Result<(), String>)
    ensures
        r is Ok <==> is_method_token(bytes@),
        r matches Err(m) ==> m@ == "invalid HTTP method"@,
{
    match reqwest::Method::from_bytes(bytes) {
        Ok(_) => Ok(()),
        Err(e) => Err(e.to_string()),
    }
}

/// A request as it is sent to one replica: method, full URL, headers in the
/// order they are added, and body.
#[derive(Debug)]
pub struct OutboundRequest {
    pub method: String,
    pub url: String,
    pub headers: Vec<(String, String)>,
    pub body: Option<Vec<u8>>,
}

/// A replica's answer as it was received: status, header names with the raw
/// bytes of their values, and body.
pub struct RawResponse {
    pub status: u16,
    pub headers: Vec<(String, Vec<u8>)>,
    pub body: Vec<u8>,
}

/// The header lines of a request: for each header name in turn, one line per
/// value, in the order of the values.
pub open spec fn header_lines(entries: Seq<(Seq<char>, Seq<Seq<char>>)>) -> Seq<(Seq<char>, Seq<char>)>
    decreases entries.len(),
{
    if entries.len() == 0 {
        Seq::empty()
    } else {
        header_lines(entries.drop_last()) + entries.last().1.map_values(
            |v: Seq<char>| (entries.last().0, v),
        )
    }
}

/// The header lines of an outbound request, as texts.
pub open spec fn line_texts(lines: Seq<(String, String)>) -> Seq<(Seq<char>, Seq<char>)> {
    lines.map_values(|l: (String, String)| (l.0@, l.1@))
}

/// The result recorded for a replica's answer.
pub open spec fn downstream_matches(raw: RawResponse, d: DownstreamResult) -> bool {
    &&& d.headers@ == header_map(raw.headers@)
    &&& d.status_code == raw.status
    &&& d.body == Some(raw.body)
    &&& d.error is None
}

/// The request sent to the replica at `base_url`: the same method, the base
/// URL followed by the request's URL, one header line per header value, and
/// the same body.
pub open spec fn outbound_for(base_url: Seq<char>, request: DegresslyRequest, o: OutboundRequest) -> bool {
    &&& o.method == request.method
    &&& o.url@ == base_url + request.url@
    &&& line_texts(o.headers@) == header_lines(request.headers.entry_seq())
    &&& o.body == request.body
}

/// The results when only the primary is waited for.
pub open spec fn primary_only(primary: Result<DownstreamResult, DegresslyError>) -> Map<HostType, DownstreamResult> {
    match primary {
        Ok(p) => Map::empty().insert(HostType::Primary, p),
        Err(_) => Map::empty(),
    }
}

/// The results gathered when all replicas are waited for.
pub open spec fn all_gathered(
    joined: Result<(DownstreamResult, DownstreamResult, DownstreamResult), DegresslyError>,
    r: Result<HostResults, DegresslyError>,
) -> bool {
    match joined {
        Ok(t) => r matches Ok(m) && m@ == Map::<HostType, DownstreamResult>::empty().insert(
            HostType::Primary,
            t.0,
        ).insert(HostType::Secondary, t.1).insert(HostType::Candidate, t.2),
        Err(e) => r matches Err(DegresslyError::HttpError(m)) && m@ == error_display(e),
    }
}

/// Sends each request to a primary, a secondary and a candidate replica.
pub struct HttpProxyMulticastService {
    primary_host: String,
    secondary_host: String,
    candidate_host: String,
}

impl HttpProxyMulticastService {
    /// The base URL of a replica.
    pub closed spec fn host_of(self, host: HostType) -> Seq<char> {
        match host {
            HostType::Primary => self.primary_host@,
            HostType::Secondary => self.secondary_host@,
            HostType::Candidate => self.candidate_host@,
        }
    }

    pub fn new(primary_host: String, secondary_host: String, candidate_host: String) -> (s: Self)
        ensures
            s.host_of(HostType::Primary) == primary_host@,
            s.host_of(HostType::Secondary) == secondary_host@,
            s.host_of(HostType::Candidate) == candidate_host@,
    {
        HttpProxyMulticastService { primary_host, secondary_host, candidate_host }
    }

    /// The base URL of a replica.
    pub fn host(&self, host: HostType) -> (r: &String)
        ensures
            r@ == self.host_of(host),
    {
        match host {
            HostType::Primary => &self.primary_host,
            HostType::Secondary => &self.secondary_host,
            HostType::Candidate => &self.candidate_host,
        }
    }

    /// The request to send to the replica at `base_url`: the same method, the
    /// base URL followed by the request's URL, one header line per header
    /// value, and the same body. A method that is not a valid HTTP method is
    /// refused with an HTTP error.
    pub fn plan_request(base_url: &str, request: DegresslyRequest) -> (r: Result<
        OutboundRequest,
        DegresslyError,
    >)
        ensures
            r is Ok <==> is_method_token(encode_utf8(request.method@)),
            r matches Err(e) ==> e matches DegresslyError::HttpError(m) && m@
                == "invalid HTTP method"@,
            r matches Ok(o) ==> outbound_for(base_url@, request, o),
    {
        let mut url = String::from_str(base_url);
        url.append(request.url.as_str());
        if let Err(m) = check_method(request.method.as_str().as_bytes()) {
            return Err(DegresslyError::HttpError(m));
        }
        let DegresslyRequest { trace_id: _, method, url: _, headers, body, params: _ } = request;
        let entries = headers.entries();
        let ghost es = headers.entry_seq();
        let mut lines: Vec<(String, String)> = Vec::new();
        let mut i: usize = 0;
        assert(es.take(0) =~= Seq::empty());
        while i < entries.len()
            invariant
                i <= entries@.len(),
                crate::string_map::deep_pairs(entries@) == es,
                line_texts(lines@) == header_lines(es.take(i as int)),
            decreases entries@.len() - i,
        {
            let name = &entries[i].0;
            let values = &entries[i].1;
            let ghost before = lines@;
            let mut j: usize = 0;
            assert(es[i as int].1 == values.deep_view());
            assert(es[i as int].0 == name@);
            assert(es[i as int].1.take(0).map_values(|v: Seq<char>| (name@, v)) =~= Seq::empty());
            assert(line_texts(lines@) =~= line_texts(before) + es[i as int].1.take(0).map_values(
                |v: Seq<char>| (name@, v),
            ));
            while j < values.len()
                invariant
                    j <= values@.len(),
                    i < es.len(),
                    es[i as int].1 == values.deep_view(),
                    values.deep_view().len() == values@.len(),
                    line_texts(lines@) == line_texts(before) + es[i as int].1.take(j as int).map_values(
                        |v: Seq<char>| (name@, v),
                    ),
                decreases values@.len() - j,
            {
                let ghost prev = lines@;
                lines.push((name.clone(), values[j].clone()));
                assert(line_texts(lines@) =~= line_texts(prev).push((name@, values@[j as int]@)));
                assert(es[i as int].1[j as int] == values@[j as int]@);
                assert(es[i as int].1.take(j + 1).map_values(|v: Seq<char>| (name@, v)) =~= es[i as int].1.take(
                    j as int,
                ).map_values(|v: Seq<char>| (name@, v)).push((name@, values@[j as int]@)));
                assert(line_texts(lines@) =~= line_texts(before) + es[i as int].1.take(j + 1).map_values(
                    |v: Seq<char>| (name@, v),
                ));
                j = j + 1;
            }
            assert(es[i as int].1.take(j as int) =~= es[i as int].1);
            assert(es.take(i + 1).drop_last() =~= es.take(i as int));
            assert(es.take(i + 1).last() == es[i as int]);
            i = i + 1;
        }
        assert(es.take(entries@.len() as int) =~= es);
        Ok(OutboundRequest { method, url, headers: lines, body })
    }

    /// The result recorded for a replica's answer, or an HTTP error carrying
    /// the message of a failure to send the request or to read the answer.
    pub fn receive(outcome: Result<RawResponse, String>) -> (r: Result<DownstreamResult, DegresslyError>)
        ensures
            outcome matches Ok(raw) ==> r matches Ok(d) && downstream_matches(raw, d),
            outcome matches Err(m) ==> r == Err::<DownstreamResult, DegresslyError>(
                DegresslyError::HttpError(m),
            ),
    {
        match outcome {
            Ok(raw) => {
                let headers = collect_headers(&raw.headers);
                Ok(DownstreamResult { headers, status_code: raw.status, body: Some(raw.body), error: None })
            },
            Err(m) => Err(DegresslyError::HttpError(m)),
        }
    }

    /// The results when all replicas are waited for: all three results, or,
    /// when one of the requests failed, an HTTP error carrying that failure's
    /// text.
    pub fn gather_all(
        joined: Result<(DownstreamResult, DownstreamResult, DownstreamResult), DegresslyError>,
    ) -> (r: Result<HostResults, DegresslyError>)
        ensures
            all_gathered(joined, r),
    {
        match joined {
            Ok((p, s, c)) => {
                let mut results = HostResults::new();
                results.insert(HostType::Primary, p);
                results.insert(HostType::Secondary, s);
                results.insert(HostType::Candidate, c);
                Ok(results)
            },
            Err(e) => Err(DegresslyError::HttpError(e.message())),
        }
    }

    /// The results when only the primary is waited for: the primary's result
    /// when its request succeeded, and no result otherwise.
    pub fn gather_primary(primary: Result<DownstreamResult, DegresslyError>) -> (r: HostResults)
        ensures
            r@ == primary_only(primary),
    {
        let mut results = HostResults::new();
        if let Ok(p) = primary {
            results.insert(HostType::Primary, p);
        }
        results
    }
}

} // verus!
