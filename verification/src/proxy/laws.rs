//! Properties of the proxy that span several of its steps.
use vstd::prelude::*;
use crate::models::{DegresslyError, DegresslyRequest, DownstreamResult, HostResults};
use crate::proxy::handler::{
    InboundRequest, ProxyResponse, body_or_empty, first_header_value, header_map,
    proxy_outcome_matches, request_from_inbound, response_status, wait_for_all_requested,
};
use crate::proxy::service::{RawResponse, downstream_matches};
use crate::models::HostType;
use crate::text::{eq_ignore_ascii_case, law_header_text_of_visible_bytes};
use vstd::utf8::*;
use crate::proxy::service::{
    OutboundRequest, all_gathered, header_lines, line_texts, outbound_for, primary_only,
};
use crate::string_map::{distinct_keys, lemma_pairs_to_map_value, pairs_to_map};
use crate::text::header_text_or_empty;
use crate::models::error_display;

verus! {

/// The caller's headers collected by name: each name with the text of its last
/// value (the empty text for a value without textual form).
pub open spec fn last_header_texts(headers: Seq<(String, Vec<u8>)>) -> Map<Seq<char>, Seq<char>> {
    pairs_to_map(headers.map_values(|h: (String, Vec<u8>)| (h.0@, header_text_or_empty(h.1@))))
}

/// Collecting pairs whose values are transformed is transforming the values of
/// the collected map.
proof fn lemma_pairs_to_map_map_values<K, W, X>(pairs: Seq<(K, W)>, f: spec_fn(W) -> X)
    ensures
        pairs_to_map(pairs.map_values(|e: (K, W)| (e.0, f(e.1)))) == pairs_to_map(pairs).map_values(
            f,
        ),
    decreases pairs.len(),
{
    let g = |e: (K, W)| (e.0, f(e.1));
    if pairs.len() > 0 {
        lemma_pairs_to_map_map_values(pairs.drop_last(), f);
        assert(pairs.map_values(g).drop_last() =~= pairs.drop_last().map_values(g));
    }
    assert(pairs_to_map(pairs.map_values(g)) =~= pairs_to_map(pairs).map_values(f));
}

/// Every value of the map collected from pairs is the value of some pair.
proof fn lemma_pairs_to_map_values<K, W>(pairs: Seq<(K, W)>, k: K)
    requires
        pairs_to_map(pairs).dom().contains(k),
    ensures
        exists|i: int| 0 <= i < pairs.len() && pairs[i] == (k, #[trigger] pairs_to_map(pairs)[k]),
    decreases pairs.len(),
{
    let init = pairs.drop_last();
    if pairs.last().0 == k {
        assert(pairs[pairs.len() - 1] == (k, pairs_to_map(pairs)[k]));
    } else {
        lemma_pairs_to_map_values(init, k);
        let i = choose|i: int| 0 <= i < init.len() && init[i] == (k, #[trigger] pairs_to_map(init)[k]);
        assert(pairs[i] == init[i]);
    }
}

/// The header lines of entries that each hold one value are those entries.
proof fn lemma_header_lines_single(entries: Seq<(Seq<char>, Seq<Seq<char>>)>)
    requires
        forall|i: int| 0 <= i < entries.len() ==> #[trigger] entries[i].1.len() == 1,
    ensures
        header_lines(entries) == entries.map_values(
            |e: (Seq<char>, Seq<Seq<char>>)| (e.0, e.1[0]),
        ),
    decreases entries.len(),
{
    let f = |e: (Seq<char>, Seq<Seq<char>>)| (e.0, e.1[0]);
    if entries.len() > 0 {
        let init = entries.drop_last();
        assert forall|i: int| 0 <= i < init.len() implies #[trigger] init[i].1.len() == 1 by {
            assert(init[i] == entries[i]);
        }
        lemma_header_lines_single(init);
        assert(entries[entries.len() - 1].1.len() == 1);
        assert(init.map_values(f) =~= entries.map_values(f).drop_last());
        assert(header_lines(entries) =~= entries.map_values(f));
    } else {
        assert(header_lines(entries) =~= entries.map_values(f));
    }
}

/// Each replica receives the caller's request: the caller's method, the
/// caller's URI after the replica's base URL, the caller's body, and the
/// caller's headers, one line per header name holding that name's last value.
pub proof fn law_replica_receives_caller_request(
    inbound: InboundRequest,
    request: DegresslyRequest,
    base_url: Seq<char>,
    o: OutboundRequest,
)
    requires
        request_from_inbound(inbound, request),
        distinct_keys(request.headers.entry_seq()),
        outbound_for(base_url, request, o),
    ensures
        o.method == inbound.method,
        o.url@ == base_url + inbound.uri@,
        o.body == Some(inbound.body),
        pairs_to_map(line_texts(o.headers@)) == last_header_texts(inbound.headers@),
{
    let entries = request.headers.entry_seq();
    let single = |h: (String, Vec<u8>)| (h.0@, seq![header_text_or_empty(h.1@)]);
    let pairs = inbound.headers@.map_values(single);
    let first = |v: Seq<Seq<char>>| v[0];
    request.headers.lemma_entries();
    assert(pairs_to_map(entries) == pairs_to_map(pairs));
    assert forall|i: int| 0 <= i < entries.len() implies #[trigger] entries[i].1.len() == 1 by {
        lemma_pairs_to_map_value(entries, i);
        lemma_pairs_to_map_values(pairs, entries[i].0);
    }
    lemma_header_lines_single(entries);
    lemma_pairs_to_map_map_values(entries, first);
    assert(entries.map_values(|e: (Seq<char>, Seq<Seq<char>>)| (e.0, e.1[0])) =~= entries.map_values(
        |e: (Seq<char>, Seq<Seq<char>>)| (e.0, first(e.1)),
    ));
    lemma_pairs_to_map_map_values(pairs, first);
    assert(pairs.map_values(|e: (Seq<char>, Seq<Seq<char>>)| (e.0, first(e.1))) =~= inbound.headers@.map_values(
        |h: (String, Vec<u8>)| (h.0@, header_text_or_empty(h.1@)),
    ));
}

/// A caller that does not wait for all replicas gets the primary's answer when
/// the primary's request succeeded, and an internal error when it failed.
pub proof fn law_unwaited_caller_gets_primary_answer(
    primary: Result<DownstreamResult, DegresslyError>,
    results: HostResults,
    r: Result<ProxyResponse, DegresslyError>,
)
    requires
        results@ == primary_only(primary),
        proxy_outcome_matches(Ok(results), r),
    ensures
        primary matches Ok(p) ==> r matches Ok(resp) && resp.status == response_status(
            p.status_code,
        ) && resp.body@ == body_or_empty(p.body),
        primary is Err ==> (r matches Err(DegresslyError::InternalError(m)) && m@
            == "No response available"@),
{
}

/// A caller that waits for all replicas gets the primary's answer when every
/// request succeeded, and an HTTP error naming the failure otherwise.
pub proof fn law_waited_caller_gets_primary_answer(
    joined: Result<(DownstreamResult, DownstreamResult, DownstreamResult), DegresslyError>,
    gathered: Result<HostResults, DegresslyError>,
    r: Result<ProxyResponse, DegresslyError>,
)
    requires
        all_gathered(joined, gathered),
        proxy_outcome_matches(gathered, r),
    ensures
        joined matches Ok(t) ==> r matches Ok(resp) && resp.status == response_status(
            t.0.status_code,
        ) && resp.body@ == body_or_empty(t.0.body),
        joined matches Err(e) ==> r matches Err(DegresslyError::HttpError(m)) && m@ == error_display(
            e,
        ),
{
}

/// When the primary answered, the caller gets the primary's status exactly if
/// it lies in 100..=999, and 200 otherwise, with the primary's body.
pub proof fn law_primary_status_is_kept(results: HostResults, r: Result<ProxyResponse, DegresslyError>)
    requires
        proxy_outcome_matches(Ok(results), r),
        results@.contains_key(HostType::Primary),
    ensures
        r matches Ok(resp) && resp.body@ == body_or_empty(results@[HostType::Primary].body) && ((100
            <= results@[HostType::Primary].status_code && results@[HostType::Primary].status_code
            <= 999) ==> resp.status == results@[HostType::Primary].status_code) && (!(100
            <= results@[HostType::Primary].status_code && results@[HostType::Primary].status_code
            <= 999) ==> resp.status == 200),
{
}

/// The trace id of a request is the text of its first `X-Trace-ID` value,
/// whatever its length, when every byte of that value is in 32..=126 or a tab.
pub proof fn law_trace_id_is_header_text(inbound: InboundRequest, request: DegresslyRequest, v: Seq<u8>)
    requires
        request_from_inbound(inbound, request),
        first_header_value(inbound.headers@, encode_utf8("X-Trace-ID"@)) == Some(v),
        forall|i: int| 0 <= i < v.len() ==> (32 <= #[trigger] v[i] && v[i] <= 126) || v[i] == 9,
    ensures
        request.trace_id@ == decode_utf8(v),
{
    law_header_text_of_visible_bytes(v);
}

/// The caller waits for all replicas exactly when the first `X-Wait-For-All`
/// value has a textual form equal to `true` up to ASCII case.
pub proof fn law_wait_flag_reads_true(inbound: InboundRequest, flag: bool, v: Seq<u8>)
    requires
        flag == wait_for_all_requested(inbound.headers@),
        first_header_value(inbound.headers@, encode_utf8("X-Wait-For-All"@)) == Some(v),
    ensures
        flag <==> ((forall|i: int|
            0 <= i < v.len() ==> (32 <= #[trigger] v[i] && v[i] <= 126) || v[i] == 9)
            && eq_ignore_ascii_case(v, encode_utf8("true"@))),
{
    law_header_text_of_visible_bytes(v);
}

/// In headers collected by name, the last header's name maps to the text of
/// its value when every byte of that value is in 32..=126 or a tab.
proof fn lemma_last_header_text(headers: Seq<(String, Vec<u8>)>)
    requires
        headers.len() > 0,
        forall|i: int|
            0 <= i < headers.last().1@.len() ==> (32 <= #[trigger] headers.last().1@[i]
                && headers.last().1@[i] <= 126) || headers.last().1@[i] == 9,
    ensures
        header_map(headers).dom().contains(headers.last().0@),
        header_map(headers)[headers.last().0@] == seq![decode_utf8(headers.last().1@)],
{
    let pairs = headers.map_values(
        |h: (String, Vec<u8>)| (h.0@, seq![crate::text::header_text_or_empty(h.1@)]),
    );
    law_header_text_of_visible_bytes(headers.last().1@);
    assert(pairs.last() == (headers.last().0@, seq![crate::text::header_text_or_empty(headers.last().1@)]));
}

/// A replica's answer is recorded with, for its last header, that header's
/// value text (when every byte is in 32..=126 or a tab, `;` included).
pub proof fn law_recorded_header_is_value_text(raw: RawResponse, d: DownstreamResult)
    requires
        downstream_matches(raw, d),
        raw.headers@.len() > 0,
        forall|i: int|
            0 <= i < raw.headers@.last().1@.len() ==> (32 <= #[trigger] raw.headers@.last().1@[i]
                && raw.headers@.last().1@[i] <= 126) || raw.headers@.last().1@[i] == 9,
    ensures
        d.headers@.dom().contains(raw.headers@.last().0@),
        d.headers@[raw.headers@.last().0@] == seq![decode_utf8(raw.headers@.last().1@)],
{
    lemma_last_header_text(raw.headers@);
}

/// A caller's request is recorded with, for its last header, that header's
/// value text (when every byte is in 32..=126 or a tab, `;` included).
pub proof fn law_request_header_is_value_text(inbound: InboundRequest, request: DegresslyRequest)
    requires
        request_from_inbound(inbound, request),
        inbound.headers@.len() > 0,
        forall|i: int|
            0 <= i < inbound.headers@.last().1@.len() ==> (32
                <= #[trigger] inbound.headers@.last().1@[i] && inbound.headers@.last().1@[i] <= 126)
                || inbound.headers@.last().1@[i] == 9,
    ensures
        request.headers@.dom().contains(inbound.headers@.last().0@),
        request.headers@[inbound.headers@.last().0@] == seq![decode_utf8(inbound.headers@.last().1@)],
{
    lemma_last_header_text(inbound.headers@);
}

} // verus!
