//! Whole request cycles: what is emitted over the life of an observed body,
//! whatever the order of events.

use vstd::prelude::*;
use vstd::utf8::valid_utf8;
use crate::clock::{response_time, Timestamp};
use crate::field_names::FieldNames;
use crate::middleware::{accepted, observed, request_fields, status_field};
use crate::record::{lookup, FieldValueView, FieldView, LogRecordView};
use crate::request::{RequestHead, ResponseHead};
use crate::stream::{access_record, finish, step, BodyEvent, BodyPoll, Phase, StreamLogView};
use crate::text::{bytes_of, chars_of, header_text, text_or_placeholder};

verus! {

/// An event and the instant at which it happens, in nanoseconds since the
/// Unix epoch.
pub struct Tick {
    pub event: BodyEvent,
    pub at: int,
}

/// Whether `event` takes a streaming body to a terminal state.
pub open spec fn is_terminal(event: BodyEvent) -> bool {
    event == BodyEvent::Polled(BodyPoll::End) || event == BodyEvent::Closed
}

/// The terminal state that `event` leads to.
pub open spec fn terminal_phase(event: BodyEvent) -> Phase {
    if event == BodyEvent::Closed {
        Phase::Abandoned
    } else {
        Phase::Completed
    }
}

/// The bytes that `event` drains.
pub open spec fn chunk_len(event: BodyEvent) -> nat {
    match event {
        BodyEvent::Polled(BodyPoll::Chunk(len)) => len as nat,
        _ => 0,
    }
}

/// The bytes that the events of `trace` drain, all together.
pub open spec fn drained(trace: Seq<Tick>) -> nat
    decreases trace.len(),
{
    if trace.len() == 0 {
        0
    } else {
        chunk_len(trace[0].event) + drained(trace.drop_first())
    }
}

/// The place of the first terminal event in `trace`; the length of `trace`
/// where it holds none.
pub open spec fn first_terminal(trace: Seq<Tick>) -> int
    decreases trace.len(),
{
    if trace.len() == 0 || is_terminal(trace[0].event) {
        0
    } else {
        1 + first_terminal(trace.drop_first())
    }
}

/// A record that may be absent, as a list.
pub open spec fn emitted(out: Option<LogRecordView>) -> Seq<LogRecordView> {
    match out {
        Some(record) => seq![record],
        None => Seq::empty(),
    }
}

/// The events of `trace` one after the other, from the state `s`: the state
/// at the end and the records emitted on the way.
pub open spec fn run(s: StreamLogView, trace: Seq<Tick>) -> (StreamLogView, Seq<LogRecordView>)
    decreases trace.len(),
{
    if trace.len() == 0 {
        (s, Seq::empty())
    } else {
        let (next, out) = step(s, trace[0].event, trace[0].at);
        let (last, rest) = run(next, trace.drop_first());
        (last, emitted(out) + rest)
    }
}

/// `s` after `bytes` more bytes have drained.
pub open spec fn after_draining(s: StreamLogView, bytes: nat) -> StreamLogView {
    StreamLogView { size: s.size + bytes, ..s }
}

/// The first terminal event lies within the trace or right behind it, it
/// is terminal where it lies within, and no event before it is.
pub proof fn lemma_first_terminal(trace: Seq<Tick>)
    ensures
        0 <= first_terminal(trace) <= trace.len(),
        first_terminal(trace) < trace.len() ==> is_terminal(
            trace[first_terminal(trace)].event,
        ),
        forall|j: int| 0 <= j < first_terminal(trace) ==> !is_terminal(#[trigger] trace[j].event),
    decreases trace.len(),
{
    if trace.len() == 0 || is_terminal(trace[0].event) {
    } else {
        let rest = trace.drop_first();
        lemma_first_terminal(rest);
        assert forall|j: int| 0 <= j < first_terminal(trace) implies !is_terminal(
            #[trigger] trace[j].event,
        ) by {
            if j > 0 {
                assert(trace[j] == rest[j - 1]);
            }
        }
    }
}

/// Whether the body reaches a terminal state in the course of `trace`: it
/// is read to its end, or it is disposed of.
pub open spec fn has_terminal(trace: Seq<Tick>) -> bool {
    exists|i: int| 0 <= i < trace.len() && is_terminal(#[trigger] trace[i].event)
}

/// A trace that holds a terminal event holds a first one.
pub proof fn lemma_has_terminal(trace: Seq<Tick>)
    ensures
        has_terminal(trace) <==> first_terminal(trace) < trace.len(),
{
    lemma_first_terminal(trace);
    if first_terminal(trace) < trace.len() {
        assert(is_terminal(trace[first_terminal(trace)].event));
    }
}

/// A body that is disposed of at last reaches a terminal state, whatever
/// came before.
pub proof fn lemma_closed_trace_terminates(trace: Seq<Tick>)
    requires
        trace.len() > 0,
        trace.last().event == BodyEvent::Closed,
    ensures
        has_terminal(trace),
{
    assert(is_terminal(trace[trace.len() - 1].event));
}

/// A body in a terminal state stays as it is and emits nothing, whatever
/// happens.
pub proof fn lemma_terminal_is_final(s: StreamLogView, trace: Seq<Tick>)
    requires
        s.phase != Phase::Streaming,
    ensures
        run(s, trace) == (s, Seq::<LogRecordView>::empty()),
    decreases trace.len(),
{
    if trace.len() > 0 {
        lemma_terminal_is_final(s, trace.drop_first());
        assert(Seq::<LogRecordView>::empty() + Seq::<LogRecordView>::empty()
            =~= Seq::<LogRecordView>::empty());
    }
}

/// What a run comes to. Up to the first terminal event the body only
/// counts the bytes of its chunks. At that event it enters its terminal
/// state with the bytes counted until then, and emits what it emits there;
/// nothing after that event matters. A trace without a terminal event
/// leaves the body streaming and emits nothing.
pub proof fn lemma_run(s: StreamLogView, trace: Seq<Tick>)
    requires
        s.phase == Phase::Streaming,
    ensures
        first_terminal(trace) < trace.len() ==> run(s, trace) == ({
            let k = first_terminal(trace);
            let end = finish(
                after_draining(s, drained(trace.take(k))),
                terminal_phase(trace[k].event),
                trace[k].at,
            );
            (end.0, emitted(end.1))
        }),
        first_terminal(trace) == trace.len() ==> run(s, trace) == (
            after_draining(s, drained(trace)),
            Seq::<LogRecordView>::empty(),
        ),
    decreases trace.len(),
{
    lemma_first_terminal(trace);
    if trace.len() == 0 {
        assert(after_draining(s, 0) == s);
    } else if is_terminal(trace[0].event) {
        assert(trace.take(0) =~= Seq::<Tick>::empty());
        assert(after_draining(s, 0) == s);
        let end = finish(s, terminal_phase(trace[0].event), trace[0].at);
        assert(step(s, trace[0].event, trace[0].at) == end);
        lemma_terminal_is_final(end.0, trace.drop_first());
        assert(emitted(end.1) + Seq::<LogRecordView>::empty() =~= emitted(end.1));
    } else {
        let rest = trace.drop_first();
        let bytes = chunk_len(trace[0].event);
        let next = after_draining(s, bytes);
        assert(step(s, trace[0].event, trace[0].at) == (next, None::<LogRecordView>));
        lemma_run(next, rest);
        let k = first_terminal(trace);
        assert(emitted(None) + run(next, rest).1 =~= run(next, rest).1);
        if k < trace.len() {
            assert(trace.take(k).drop_first() =~= rest.take(k - 1));
            assert(trace.take(k)[0] == trace[0]);
            assert(drained(trace.take(k)) == bytes + drained(rest.take(k - 1)));
            assert(after_draining(next, drained(rest.take(k - 1))) == after_draining(
                s,
                drained(trace.take(k)),
            ));
            assert(rest[k - 1] == trace[k]);
        } else {
            assert(after_draining(next, drained(rest)) == after_draining(s, drained(trace)));
        }
    }
}

/// The access records of a whole request cycle: the request `req` is
/// accepted at `accepted_at` under the exclusions `excluded`, the handler
/// chain answers with `res`, and the body lives through `trace`.
pub open spec fn access_records(
    excluded: Set<Seq<char>>,
    req: RequestHead,
    accepted_at: Timestamp,
    res: ResponseHead,
    trace: Seq<Tick>,
) -> Seq<LogRecordView> {
    run(observed(accepted(excluded, req, accepted_at), res), trace).1
}

/// A request whose path is not excluded gets exactly one access record,
/// whether its body is read to the end or given up before. The record is
/// emitted at the first terminal event. It carries the fields of the request, the status, the
/// bytes of all chunks drained before that event, and the time that passed
/// between the acceptance of the request and that event.
pub proof fn lemma_one_access_record(
    excluded: Set<Seq<char>>,
    req: RequestHead,
    accepted_at: Timestamp,
    res: ResponseHead,
    trace: Seq<Tick>,
)
    requires
        !excluded.contains(req.path@),
        has_terminal(trace),
    ensures
        access_records(excluded, req, accepted_at, res, trace).len() == 1,
        access_records(excluded, req, accepted_at, res, trace)[0] == access_record(
            after_draining(
                observed(accepted(excluded, req, accepted_at), res),
                drained(trace.take(first_terminal(trace))),
            ),
            trace[first_terminal(trace)].at,
        ),
        access_records(excluded, req, accepted_at, res, trace)[0].fields == request_fields(FieldNames::defaults(), req)
            + seq![
            status_field(res.status),
            FieldView {
                key: "bytes_sent"@,
                value: FieldValueView::Usize(drained(trace.take(first_terminal(trace))) as int),
            },
            FieldView {
                key: "response_time"@,
                value: FieldValueView::I64(
                    response_time(accepted_at@, trace[first_terminal(trace)].at) as int,
                ),
            },
        ],
{
    let start = observed(accepted(excluded, req, accepted_at), res);
    lemma_has_terminal(trace);
    lemma_run(start, trace);
    let k = first_terminal(trace);
    let record = access_record(after_draining(start, drained(trace.take(k))), trace[k].at);
    assert(access_records(excluded, req, accepted_at, res, trace) == seq![record]);
    assert(record.fields =~= request_fields(FieldNames::defaults(), req) + seq![
        status_field(res.status),
        FieldView {
            key: "bytes_sent"@,
            value: FieldValueView::Usize(drained(trace.take(k)) as int),
        },
        FieldView {
            key: "response_time"@,
            value: FieldValueView::I64(response_time(accepted_at@, trace[k].at) as int),
        },
    ]);
}

/// A request whose path is excluded gets no access record: whatever the
/// response is, error or not, and whatever happens to its body.
pub proof fn lemma_no_access_record_when_excluded(
    excluded: Set<Seq<char>>,
    req: RequestHead,
    accepted_at: Timestamp,
    res: ResponseHead,
    trace: Seq<Tick>,
)
    requires
        excluded.contains(req.path@),
    ensures
        access_records(excluded, req, accepted_at, res, trace).len() == 0,
{
    let start = observed(accepted(excluded, req, accepted_at), res);
    lemma_first_terminal(trace);
    lemma_run(start, trace);
}

/// No body ever emits more than one record, and none before its first
/// terminal event.
pub proof fn lemma_at_most_one_record(s: StreamLogView, trace: Seq<Tick>)
    ensures
        run(s, trace).1.len() <= 1,
        first_terminal(trace) == trace.len() ==> run(s, trace).1.len() == 0,
{
    lemma_first_terminal(trace);
    if s.phase == Phase::Streaming {
        lemma_run(s, trace);
    } else {
        lemma_terminal_is_final(s, trace);
    }
}

/// The byte counter never goes down.
pub proof fn lemma_counter_only_grows(s: StreamLogView, trace: Seq<Tick>)
    ensures
        run(s, trace).0.size >= s.size,
{
    lemma_first_terminal(trace);
    if s.phase == Phase::Streaming {
        lemma_run(s, trace);
    } else {
        lemma_terminal_is_final(s, trace);
    }
}

/// What one event short of the end does: a chunk adds its length to the
/// counter of a streaming body, be it a chunk of no bytes at all; any other
/// poll leaves the body as it is; and no record is emitted.
pub proof fn lemma_step_before_the_end(s: StreamLogView, event: BodyEvent, at: int)
    requires
        !is_terminal(event),
    ensures
        step(s, event, at).1 is None,
        step(s, event, at).0.phase == s.phase,
        s.phase == Phase::Streaming ==> step(s, event, at).0 == after_draining(
            s,
            chunk_len(event),
        ),
        s.phase != Phase::Streaming ==> step(s, event, at).0 == s,
{
    assert(after_draining(s, 0) == s);
}

/// The counter of a body holds the bytes of all chunks drained before its
/// terminal state, and of no other: whether they came as one chunk, as
/// many, or not at all, and whatever else was polled in between.
pub proof fn lemma_counter_is_sum_of_chunks(s: StreamLogView, trace: Seq<Tick>)
    requires
        s.phase == Phase::Streaming,
    ensures
        run(s, trace).0.size == s.size + drained(trace.take(first_terminal(trace))),
{
    lemma_first_terminal(trace);
    lemma_run(s, trace);
    if first_terminal(trace) == trace.len() {
        assert(trace.take(trace.len() as int) =~= trace);
    }
}

/// Exclusion changes nothing in how a body drains: two bodies that differ
/// in nothing but the exclusion of their request go through the same
/// phases and count the same bytes, whatever happens to them.
pub proof fn lemma_exclusion_leaves_draining_alone(s: StreamLogView, trace: Seq<Tick>)
    ensures
        run(StreamLogView { is_exclude: true, ..s }, trace).0 == (StreamLogView {
            is_exclude: true,
            ..run(StreamLogView { is_exclude: false, ..s }, trace).0
        }),
{
    let logged = StreamLogView { is_exclude: false, ..s };
    let silent = StreamLogView { is_exclude: true, ..s };
    lemma_first_terminal(trace);
    if s.phase == Phase::Streaming {
        lemma_run(logged, trace);
        lemma_run(silent, trace);
    } else {
        lemma_terminal_is_final(logged, trace);
        lemma_terminal_is_final(silent, trace);
    }
}

/// The keys of an access record, in the order of its fields.
pub open spec fn record_keys() -> Seq<Seq<char>> {
    FieldNames::defaults().keys() + seq!["status"@, "bytes_sent"@, "response_time"@]
}

/// No two fields of an access record share a key.
pub proof fn lemma_record_keys_differ()
    ensures
        record_keys().no_duplicates(),
{
    reveal_strlit("http_version");
    reveal_strlit("http_host");
    reveal_strlit("referer");
    reveal_strlit("remote_address");
    reveal_strlit("agent");
    reveal_strlit("request_method");
    reveal_strlit("correlation-id");
    reveal_strlit("uri");
    reveal_strlit("query_string");
    reveal_strlit("status");
    reveal_strlit("bytes_sent");
    reveal_strlit("response_time");
    let keys = record_keys();
    assert(keys[0].len() == 12 && keys[1].len() == 9 && keys[2].len() == 7 && keys[3].len() == 14
        && keys[4].len() == 5 && keys[5].len() == 14 && keys[6].len() == 14 && keys[7].len() == 3
        && keys[8].len() == 12 && keys[9].len() == 6 && keys[10].len() == 10 && keys[11].len()
        == 13);
    assert(keys[0][0] == 'h' && keys[8][0] == 'q');
    assert(keys[3][2] == 'm' && keys[5][2] == 'q' && keys[3][0] == 'r' && keys[5][0] == 'r'
        && keys[6][0] == 'c');
    assert forall|i: int, j: int| 0 <= i < keys.len() && 0 <= j < keys.len() && i != j implies keys[i]
        != keys[j] by {
        if keys[i].len() == keys[j].len() {
            if i == 0 || i == 8 {
                assert(keys[i][0] != keys[j][0]);
            } else if i == 6 || j == 6 {
                assert(keys[i][0] != keys[j][0]);
            } else {
                assert(keys[i][2] != keys[j][2]);
            }
        }
    }
}

/// The value under a key is the value of the first field that bears it.
pub proof fn lemma_lookup_first(fields: Seq<FieldView>, key: Seq<char>, i: int)
    requires
        0 <= i < fields.len(),
        fields[i].key == key,
        forall|j: int| 0 <= j < i ==> fields[j].key != key,
    ensures
        lookup(fields, key) == Some(fields[i].value),
    decreases i,
{
    if i > 0 {
        let rest = fields.drop_first();
        assert(rest[i - 1] == fields[i]);
        assert forall|j: int| 0 <= j < i - 1 implies rest[j].key != key by {
            assert(rest[j] == fields[j + 1]);
        }
        lemma_lookup_first(rest, key, i - 1);
    }
}

/// Every field of an access record is found under its key, and what is
/// found there hangs on one attribute of the request alone, or on the
/// response, or on the body: no attribute has a say in another's field. The
/// query string is emitted as a question mark followed by the raw query.
pub proof fn lemma_fields_by_key(
    excluded: Set<Seq<char>>,
    req: RequestHead,
    accepted_at: Timestamp,
    res: ResponseHead,
    trace: Seq<Tick>,
)
    requires
        !excluded.contains(req.path@),
        has_terminal(trace),
    ensures
        ({
            let fields = access_records(excluded, req, accepted_at, res, trace)[0].fields;
            let end = first_terminal(trace);
            &&& lookup(fields, "http_version"@) == Some(FieldValueView::Str(req.version@))
            &&& lookup(fields, "http_host"@) == Some(
                FieldValueView::Str(header_text(bytes_of(req.host))),
            )
            &&& lookup(fields, "referer"@) == Some(
                FieldValueView::Str(header_text(bytes_of(req.referer))),
            )
            &&& lookup(fields, "remote_address"@) == Some(
                FieldValueView::Str(text_or_placeholder(chars_of(req.remote_addr))),
            )
            &&& lookup(fields, "agent"@) == Some(
                FieldValueView::Str(header_text(bytes_of(req.user_agent))),
            )
            &&& lookup(fields, "request_method"@) == Some(FieldValueView::Str(req.method@))
            &&& lookup(fields, "correlation-id"@) == Some(
                FieldValueView::Str(header_text(bytes_of(req.correlation_id))),
            )
            &&& lookup(fields, "uri"@) == Some(FieldValueView::Str(req.path@))
            &&& lookup(fields, "query_string"@) == Some(
                FieldValueView::Str(seq!['?'] + req.query@),
            )
            &&& lookup(fields, "status"@) == Some(FieldValueView::U16(res.status as int))
            &&& lookup(fields, "bytes_sent"@) == Some(
                FieldValueView::Usize(drained(trace.take(end)) as int),
            )
            &&& lookup(fields, "response_time"@) == Some(
                FieldValueView::I64(response_time(accepted_at@, trace[end].at) as int),
            )
        }),
{
    lemma_one_access_record(excluded, req, accepted_at, res, trace);
    lemma_record_keys_differ();
    let fields = access_records(excluded, req, accepted_at, res, trace)[0].fields;
    let keys = record_keys();
    assert(fields.len() == 12);
    assert forall|i: int| 0 <= i < 12 implies #[trigger] fields[i].key == keys[i] by {}
    assert forall|i: int| 0 <= i < 12 implies lookup(fields, keys[i]) == Some(
        #[trigger] fields[i].value,
    ) by {
        assert forall|j: int| 0 <= j < i implies fields[j].key != keys[i] by {
            assert(fields[j].key == keys[j]);
        }
        lemma_lookup_first(fields, keys[i], i);
    }
    assert(lookup(fields, keys[0]) == Some(fields[0].value));
    assert(lookup(fields, keys[1]) == Some(fields[1].value));
    assert(lookup(fields, keys[2]) == Some(fields[2].value));
    assert(lookup(fields, keys[3]) == Some(fields[3].value));
    assert(lookup(fields, keys[4]) == Some(fields[4].value));
    assert(lookup(fields, keys[5]) == Some(fields[5].value));
    assert(lookup(fields, keys[6]) == Some(fields[6].value));
    assert(lookup(fields, keys[7]) == Some(fields[7].value));
    assert(lookup(fields, keys[8]) == Some(fields[8].value));
    assert(lookup(fields, keys[9]) == Some(fields[9].value));
    assert(lookup(fields, keys[10]) == Some(fields[10].value));
    assert(lookup(fields, keys[11]) == Some(fields[11].value));
}

/// A request without a query has the lone question mark for its query
/// string, and each of the headers `Host`, `Referer`, `User-Agent` and
/// `correlation-id` that the request does not carry, or carries with bytes
/// that are not UTF-8, has the placeholder for its field.
pub proof fn lemma_missing_attributes(
    excluded: Set<Seq<char>>,
    req: RequestHead,
    accepted_at: Timestamp,
    res: ResponseHead,
    trace: Seq<Tick>,
)
    requires
        !excluded.contains(req.path@),
        has_terminal(trace),
    ensures
        ({
            let fields = access_records(excluded, req, accepted_at, res, trace)[0].fields;
            let dash = Some(FieldValueView::Str(seq!['-']));
            &&& req.query@.len() == 0 ==> lookup(fields, "query_string"@) == Some(
                FieldValueView::Str(seq!['?']),
            )
            &&& req.host is None || !valid_utf8(req.host->0@) ==> lookup(fields, "http_host"@)
                == dash
            &&& req.referer is None || !valid_utf8(req.referer->0@) ==> lookup(
                fields,
                "referer"@,
            ) == dash
            &&& req.user_agent is None || !valid_utf8(req.user_agent->0@) ==> lookup(
                fields,
                "agent"@,
            ) == dash
            &&& req.correlation_id is None || !valid_utf8(req.correlation_id->0@) ==> lookup(
                fields,
                "correlation-id"@,
            ) == dash
            &&& req.remote_addr is None ==> lookup(fields, "remote_address"@) == dash
        }),
{
    lemma_fields_by_key(excluded, req, accepted_at, res, trace);
    assert(seq!['?'] + Seq::<char>::empty() =~= seq!['?']);
    if req.query@.len() == 0 {
        assert(req.query@ =~= Seq::<char>::empty());
    }
}

} // verus!
