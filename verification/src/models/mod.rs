//! The data that flows through the proxy: requests, downstream results,
//! observations, and the errors of the application.
use vstd::prelude::*;
use vstd::string::*;
use crate::string_map::{StringMap, pairs_to_map, distinct_keys};
use crate::text::{json_quote, json_string_literal};

verus! {

/// A request as the proxy records it and as it is replayed from Kafka.
#[derive(Debug)]
pub struct DegresslyRequest {
    pub trace_id: String,
    pub method: String,
    pub url: String,
    pub headers: StringMap<Vec<String>>,
    pub body: Option<Vec<u8>>,
    pub params: StringMap<Vec<String>>,
}

/// What one downstream replica answered.
#[derive(Debug)]
pub struct DownstreamResult {
    pub headers: StringMap<Vec<String>>,
    pub status_code: u16,
    pub body: Option<Vec<u8>>,
    pub error: Option<String>,
}

impl DeepView for DownstreamResult {
    type V = DownstreamResult;

    open spec fn deep_view(&self) -> DownstreamResult {
        *self
    }
}

/// A request together with the results that the replicas gave for it.
#[derive(Debug)]
pub struct Observation {
    pub trace_id: String,
    pub request: DegresslyRequest,
    pub downstream_results: StringMap<DownstreamResult>,
    pub timestamp: i64,
}

/// A response to be stored for a method and URL.
#[derive(Debug)]
pub struct CachePopulationRequest {
    pub method: String,
    pub url: String,
    pub status_code: u16,
    pub body: Option<Vec<u8>>,
    pub headers: StringMap<Vec<String>>,
}

/// The three replicas a request is sent to.
#[derive(Debug, Clone, Copy, PartialEq, Eq, Structural, Hash)]
pub enum HostType {
    Primary,
    Secondary,
    Candidate,
}

/// What the replicas answered, at most one result per replica.
#[derive(Debug)]
pub struct HostResults {
    primary: Option<DownstreamResult>,
    secondary: Option<DownstreamResult>,
    candidate: Option<DownstreamResult>,
}

/// The result to answer with: the primary's when there is one, else the
/// secondary's, else the candidate's.
pub open spec fn preferred_result(m: Map<HostType, DownstreamResult>) -> Option<DownstreamResult> {
    if m.contains_key(HostType::Primary) {
        Some(m[HostType::Primary])
    } else if m.contains_key(HostType::Secondary) {
        Some(m[HostType::Secondary])
    } else if m.contains_key(HostType::Candidate) {
        Some(m[HostType::Candidate])
    } else {
        None
    }
}

impl HostResults {
    /// The result stored for a replica.
    pub closed spec fn slot(self, host: HostType) -> Option<DownstreamResult> {
        match host {
            HostType::Primary => self.primary,
            HostType::Secondary => self.secondary,
            HostType::Candidate => self.candidate,
        }
    }
}

impl View for HostResults {
    type V = Map<HostType, DownstreamResult>;

    closed spec fn view(&self) -> Map<HostType, DownstreamResult> {
        Map::new(|h: HostType| self.slot(h) is Some, |h: HostType| self.slot(h)->0)
    }
}

impl HostResults {
    /// No result from any replica.
    pub fn new() -> (r: Self)
        ensures
            r@ == Map::<HostType, DownstreamResult>::empty(),
    {
        let r = HostResults { primary: None, secondary: None, candidate: None };
        assert(r@ =~= Map::<HostType, DownstreamResult>::empty());
        r
    }

    /// Records what a replica answered, replacing an earlier result of it.
    pub fn insert(&mut self, host: HostType, result: DownstreamResult)
        ensures
            final(self)@ == old(self)@.insert(host, result),
    {
        match host {
            HostType::Primary => self.primary = Some(result),
            HostType::Secondary => self.secondary = Some(result),
            HostType::Candidate => self.candidate = Some(result),
        }
        assert(self@ =~= old(self)@.insert(host, result));
    }

    /// What a replica answered, if it did.
    pub fn get(&self, host: HostType) -> (r: Option<&DownstreamResult>)
        ensures
            r is Some <==> self@.contains_key(host),
            r matches Some(v) ==> *v == self@[host],
    {
        match host {
            HostType::Primary => self.primary.as_ref(),
            HostType::Secondary => self.secondary.as_ref(),
            HostType::Candidate => self.candidate.as_ref(),
        }
    }

    /// The result to answer with, taken out of the results.
    pub fn into_preferred(self) -> (r: Option<DownstreamResult>)
        ensures
            r == preferred_result(self@),
    {
        match self.primary {
            Some(p) => Some(p),
            None => match self.secondary {
                Some(s) => Some(s),
                None => self.candidate,
            },
        }
    }

    /// The results as `(replica, result)` pairs, one per replica that answered.
    pub fn into_pairs(self) -> (r: Vec<(HostType, DownstreamResult)>)
        ensures
            pairs_to_map(r@) == self@,
            distinct_keys(r@),
    {
        let ghost m = self@;
        let mut v: Vec<(HostType, DownstreamResult)> = Vec::new();
        let HostResults { primary, secondary, candidate } = self;
        if let Some(p) = primary {
            v.push((HostType::Primary, p));
        }
        if let Some(s) = secondary {
            v.push((HostType::Secondary, s));
        }
        if let Some(c) = candidate {
            v.push((HostType::Candidate, c));
        }
        proof {
            reveal_with_fuel(pairs_to_map, 4);
            assert(pairs_to_map(v@) =~= m);
        }
        v
    }
}

/// The errors of the application.
#[derive(Debug)]
pub enum DegresslyError {
    HttpError(String),
    KafkaError(String),
    ConfigError(String),
    InternalError(String),
}

/// The text of an error as it is displayed.
pub open spec fn error_display(e: DegresslyError) -> Seq<char> {
    match e {
        DegresslyError::HttpError(m) => "HTTP error: "@ + m@,
        DegresslyError::KafkaError(m) => "Kafka error: "@ + m@,
        DegresslyError::ConfigError(m) => "Configuration error: "@ + m@,
        DegresslyError::InternalError(m) => "Internal error: "@ + m@,
    }
}

/// The HTTP status with which an error is answered.
pub open spec fn error_status(e: DegresslyError) -> u16 {
    match e {
        DegresslyError::HttpError(_) => 400,
        _ => 500,
    }
}

/// The JSON body with which an error is answered: an object whose one member
/// `error` holds the error's text.
pub open spec fn error_json_body(e: DegresslyError) -> Seq<char> {
    "{\"error\":"@ + json_string_literal(error_display(e)) + "}"@
}

impl DegresslyError {
    /// The error's text: its kind followed by its message.
    pub fn message(&self) -> (r: String)
        ensures
            r@ == error_display(*self),
    {
        let (prefix, m) = match self {
            DegresslyError::HttpError(m) => ("HTTP error: ", m),
            DegresslyError::KafkaError(m) => ("Kafka error: ", m),
            DegresslyError::ConfigError(m) => ("Configuration error: ", m),
            DegresslyError::InternalError(m) => ("Internal error: ", m),
        };
        let mut s = String::from_str(prefix);
        s.append(m.as_str());
        s
    }

    /// The HTTP status with which the error is answered: bad request for an
    /// HTTP error, internal server error for every other kind.
    pub fn status_code(&self) -> (r: u16)
        ensures
            r == error_status(*self),
    {
        match self {
            DegresslyError::HttpError(_) => 400,
            _ => 500,
        }
    }

    /// The JSON body with which the error is answered.
    pub fn error_body(&self) -> (r: String)
        ensures
            r@ == error_json_body(*self),
    {
        let text = self.message();
        let quoted = json_quote(text.as_str());
        let mut s = String::from_str("{\"error\":");
        s.append(quoted.as_str());
        s.append("}");
        s
    }
}

} // verus!
