use actix_slog::{
    BodyPoll, Field, FieldValue, Level, LogRecord, Phase, RequestHead, ResponseHead, StreamLog,
    StructuredLogger, StructuredLoggerMiddleware, Timestamp,
};

fn at(secs: i64, nanos: u32) -> Timestamp {
    Timestamp { secs, nanos }
}

fn orders_request(path: &str) -> RequestHead {
    RequestHead {
        version: String::from("HTTP/1.1"),
        method: String::from("GET"),
        path: String::from(path),
        query: String::from("id=5"),
        host: None,
        referer: None,
        user_agent: Some(b"test-agent".to_vec()),
        correlation_id: None,
        remote_addr: None,
    }
}

fn full_request() -> RequestHead {
    RequestHead {
        version: String::from("HTTP/2.0"),
        method: String::from("POST"),
        path: String::from("/upload"),
        query: String::from("a=1&b=2"),
        host: Some(b"example.org".to_vec()),
        referer: Some(b"https://example.org/form".to_vec()),
        user_agent: Some(b"curl/8.0".to_vec()),
        correlation_id: Some(b"abc-123".to_vec()),
        remote_addr: Some(String::from("10.0.0.7:4242")),
    }
}

fn ok(status: u16) -> ResponseHead {
    ResponseHead { status, error: None }
}

fn service() -> StructuredLoggerMiddleware<&'static str> {
    StructuredLogger::new("base").exclude("/liveness").new_transform()
}

fn start(req: &RequestHead, res: &ResponseHead, accepted: Timestamp) -> StreamLog {
    service().call_at(req, accepted).poll(res).0
}

fn value<'a>(fields: &'a [Field], key: &str) -> Option<&'a FieldValue> {
    fields.iter().find(|f| f.key == key).map(|f| &f.value)
}

fn text(s: &str) -> FieldValue {
    FieldValue::Str(String::from(s))
}

fn keys(record: &LogRecord) -> Vec<&'static str> {
    record.fields.iter().map(|f| f.key).collect()
}

#[test]
fn three_chunks_give_one_record_with_their_sum() {
    let req = orders_request("/orders");
    let mut stream = start(&req, &ok(200), at(1_000, 0));
    let mut records = Vec::new();
    for len in [10usize, 20, 30] {
        records.extend(stream.poll_next_at(BodyPoll::Chunk(len), at(1_000, 5)));
    }
    records.extend(stream.poll_next_at(BodyPoll::End, at(1_000, 7_000_000)));
    records.extend(stream.close_at(at(1_000, 9_000_000)));
    assert_eq!(records.len(), 1);
    let record = &records[0];
    assert_eq!(record.level, Level::Info);
    assert_eq!(record.message, "-");
    assert_eq!(value(&record.fields, "uri"), Some(&text("/orders")));
    assert_eq!(value(&record.fields, "query_string"), Some(&text("?id=5")));
    assert_eq!(value(&record.fields, "agent"), Some(&text("test-agent")));
    assert_eq!(value(&record.fields, "status"), Some(&FieldValue::U16(200)));
    assert_eq!(value(&record.fields, "bytes_sent"), Some(&FieldValue::Usize(60)));
    assert_eq!(value(&record.fields, "response_time"), Some(&FieldValue::I64(7)));
    assert_eq!(stream.phase(), Phase::Completed);
}

#[test]
fn excluded_path_gives_no_record_though_the_body_drains() {
    let req = orders_request("/liveness");
    let mut stream = start(&req, &ok(200), at(1_000, 0));
    assert!(stream.is_excluded());
    let mut records = Vec::new();
    for len in [10usize, 20, 30] {
        records.extend(stream.poll_next_at(BodyPoll::Chunk(len), at(1_000, 5)));
    }
    assert_eq!(stream.bytes_sent(), 60);
    records.extend(stream.poll_next_at(BodyPoll::End, at(1_001, 0)));
    records.extend(stream.close_at(at(1_001, 0)));
    assert!(records.is_empty());
    assert_eq!(stream.phase(), Phase::Completed);
    assert_eq!(stream.bytes_sent(), 60);
}

#[test]
fn disconnect_after_fifteen_bytes_gives_one_record() {
    let req = orders_request("/orders");
    let mut stream = start(&req, &ok(200), at(50, 0));
    assert_eq!(stream.poll_next_at(BodyPoll::Chunk(15), at(50, 1)), None);
    let record = stream.close_at(at(52, 0)).expect("an abandoned body is logged");
    assert_eq!(value(&record.fields, "bytes_sent"), Some(&FieldValue::Usize(15)));
    assert_eq!(value(&record.fields, "response_time"), Some(&FieldValue::I64(2_000)));
    assert_eq!(stream.phase(), Phase::Abandoned);
    assert_eq!(stream.close_at(at(53, 0)), None);
    assert_eq!(stream.poll_next_at(BodyPoll::End, at(54, 0)), None);
    assert_eq!(stream.phase(), Phase::Abandoned);
}

#[test]
fn excluded_path_gives_no_record_when_abandoned() {
    let req = orders_request("/liveness");
    let mut stream = start(&req, &ok(200), at(50, 0));
    assert_eq!(stream.poll_next_at(BodyPoll::Chunk(15), at(50, 1)), None);
    assert_eq!(stream.close_at(at(52, 0)), None);
    assert_eq!(stream.phase(), Phase::Abandoned);
}

#[test]
fn empty_body_is_logged_with_zero_bytes() {
    let req = orders_request("/orders");
    let mut stream = start(&req, &ok(204), at(7, 0));
    let record = stream.poll_next_at(BodyPoll::End, at(7, 0)).expect("a record");
    assert_eq!(value(&record.fields, "bytes_sent"), Some(&FieldValue::Usize(0)));
    assert_eq!(value(&record.fields, "response_time"), Some(&FieldValue::I64(0)));
    assert_eq!(value(&record.fields, "status"), Some(&FieldValue::U16(204)));
}

#[test]
fn body_dropped_unread_is_logged_with_zero_bytes() {
    let req = orders_request("/orders");
    let mut stream = start(&req, &ok(200), at(7, 0));
    let record = stream.close_at(at(7, 1_000_000)).expect("a record");
    assert_eq!(value(&record.fields, "bytes_sent"), Some(&FieldValue::Usize(0)));
    assert_eq!(value(&record.fields, "response_time"), Some(&FieldValue::I64(1)));
}

#[test]
fn single_chunk_and_many_small_chunks_are_summed() {
    let req = orders_request("/orders");
    let mut one = start(&req, &ok(200), at(0, 0));
    assert_eq!(one.poll_next_at(BodyPoll::Chunk(4096), at(0, 0)), None);
    let record = one.poll_next_at(BodyPoll::End, at(0, 0)).expect("a record");
    assert_eq!(value(&record.fields, "bytes_sent"), Some(&FieldValue::Usize(4096)));

    let mut many = start(&req, &ok(200), at(0, 0));
    for _ in 0..1000 {
        assert_eq!(many.poll_next_at(BodyPoll::Chunk(3), at(0, 0)), None);
    }
    assert_eq!(many.poll_next_at(BodyPoll::Chunk(0), at(0, 0)), None);
    assert_eq!(many.bytes_sent(), 3000);
    let record = many.close_at(at(0, 0)).expect("a record");
    assert_eq!(value(&record.fields, "bytes_sent"), Some(&FieldValue::Usize(3000)));
}

#[test]
fn pending_and_failed_polls_count_nothing() {
    let req = orders_request("/orders");
    let mut stream = start(&req, &ok(200), at(0, 0));
    assert_eq!(stream.poll_next_at(BodyPoll::Pending, at(0, 0)), None);
    assert_eq!(stream.poll_next_at(BodyPoll::Chunk(8), at(0, 0)), None);
    assert_eq!(stream.poll_next_at(BodyPoll::Failed, at(0, 0)), None);
    assert_eq!(stream.poll_next_at(BodyPoll::Pending, at(0, 0)), None);
    assert_eq!(stream.phase(), Phase::Streaming);
    assert_eq!(stream.bytes_sent(), 8);
    let record = stream.close_at(at(0, 0)).expect("a record");
    assert_eq!(value(&record.fields, "bytes_sent"), Some(&FieldValue::Usize(8)));
}

#[test]
fn nothing_counts_after_the_end() {
    let req = orders_request("/orders");
    let mut stream = start(&req, &ok(200), at(0, 0));
    assert_eq!(stream.poll_next_at(BodyPoll::Chunk(8), at(0, 0)), None);
    assert!(stream.poll_next_at(BodyPoll::End, at(1, 0)).is_some());
    assert_eq!(stream.poll_next_at(BodyPoll::Chunk(100), at(2, 0)), None);
    assert_eq!(stream.poll_next_at(BodyPoll::End, at(3, 0)), None);
    assert_eq!(stream.close_at(at(4, 0)), None);
    assert_eq!(stream.bytes_sent(), 8);
    assert_eq!(stream.phase(), Phase::Completed);
}

#[test]
fn counter_may_reach_the_largest_number() {
    let req = orders_request("/orders");
    let mut stream = start(&req, &ok(200), at(0, 0));
    assert_eq!(stream.poll_next_at(BodyPoll::Chunk(usize::MAX - 1), at(0, 0)), None);
    assert_eq!(stream.poll_next_at(BodyPoll::Chunk(1), at(0, 0)), None);
    assert_eq!(stream.bytes_sent(), usize::MAX);
    assert!(stream.poll_next_at(BodyPoll::End, at(0, 0)).is_some());
    assert_eq!(stream.poll_next_at(BodyPoll::Chunk(usize::MAX), at(0, 0)), None);
    assert_eq!(stream.bytes_sent(), usize::MAX);
}

#[test]
fn record_holds_every_field_in_order() {
    let mut stream = start(&full_request(), &ok(201), at(10, 0));
    assert_eq!(stream.poll_next_at(BodyPoll::Chunk(5), at(10, 0)), None);
    let record = stream.poll_next_at(BodyPoll::End, at(10, 500_000_000)).expect("a record");
    let expected = LogRecord {
        level: Level::Info,
        message: String::from("-"),
        fields: vec![
            Field { key: "http_version", value: text("HTTP/2.0") },
            Field { key: "http_host", value: text("example.org") },
            Field { key: "referer", value: text("https://example.org/form") },
            Field { key: "remote_address", value: text("10.0.0.7:4242") },
            Field { key: "agent", value: text("curl/8.0") },
            Field { key: "request_method", value: text("POST") },
            Field { key: "correlation-id", value: text("abc-123") },
            Field { key: "uri", value: text("/upload") },
            Field { key: "query_string", value: text("?a=1&b=2") },
            Field { key: "status", value: FieldValue::U16(201) },
            Field { key: "bytes_sent", value: FieldValue::Usize(5) },
            Field { key: "response_time", value: FieldValue::I64(500) },
        ],
    };
    assert_eq!(record, expected);
}

#[test]
fn empty_query_is_a_lone_question_mark() {
    let mut req = orders_request("/orders");
    req.query = String::new();
    let pending = service().call_at(&req, at(0, 0));
    assert_eq!(value(pending.fields(), "query_string"), Some(&text("?")));
    let mut stream = pending.poll(&ok(200)).0;
    let record = stream.close_at(at(0, 0)).expect("a record");
    assert_eq!(value(&record.fields, "query_string"), Some(&text("?")));
}

#[test]
fn query_is_taken_as_it_comes() {
    let mut req = orders_request("/orders");
    req.query = String::from("?q=%20a&&x");
    let pending = service().call_at(&req, at(0, 0));
    assert_eq!(value(pending.fields(), "query_string"), Some(&text("??q=%20a&&x")));
}

#[test]
fn each_missing_header_gives_a_dash_and_leaves_the_rest() {
    let all = full_request();
    let full = service().call_at(&all, at(0, 0));
    let names = ["http_host", "referer", "agent", "correlation-id", "remote_address"];
    for missing in names {
        let mut req = full_request();
        match missing {
            "http_host" => req.host = None,
            "referer" => req.referer = None,
            "agent" => req.user_agent = None,
            "correlation-id" => req.correlation_id = None,
            _ => req.remote_addr = None,
        }
        let pending = service().call_at(&req, at(0, 0));
        assert_eq!(pending.fields().len(), 9);
        for (got, reference) in pending.fields().iter().zip(full.fields().iter()) {
            assert_eq!(got.key, reference.key);
            if got.key == missing {
                assert_eq!(got.value, text("-"));
            } else {
                assert_eq!(got.value, reference.value);
            }
        }
    }
}

#[test]
fn request_without_any_header_is_accepted() {
    let req = RequestHead {
        version: String::from("HTTP/1.0"),
        method: String::from("HEAD"),
        path: String::from("/"),
        query: String::new(),
        host: None,
        referer: None,
        user_agent: None,
        correlation_id: None,
        remote_addr: None,
    };
    let pending = service().call_at(&req, at(0, 0));
    let expected = vec![
        Field { key: "http_version", value: text("HTTP/1.0") },
        Field { key: "http_host", value: text("-") },
        Field { key: "referer", value: text("-") },
        Field { key: "remote_address", value: text("-") },
        Field { key: "agent", value: text("-") },
        Field { key: "request_method", value: text("HEAD") },
        Field { key: "correlation-id", value: text("-") },
        Field { key: "uri", value: text("/") },
        Field { key: "query_string", value: text("?") },
    ];
    assert_eq!(pending.fields(), &expected);
    assert!(!pending.is_excluded());
}

#[test]
fn header_that_is_not_utf8_gives_a_dash() {
    let mut req = full_request();
    req.user_agent = Some(vec![b'a', 0xff, b'b']);
    req.host = Some(vec![0xc3]);
    req.referer = Some(vec![0xed, 0xa0, 0x80]);
    req.correlation_id = Some(vec![0xc0, 0xaf]);
    let pending = service().call_at(&req, at(0, 0));
    assert_eq!(value(pending.fields(), "agent"), Some(&text("-")));
    assert_eq!(value(pending.fields(), "http_host"), Some(&text("-")));
    assert_eq!(value(pending.fields(), "referer"), Some(&text("-")));
    assert_eq!(value(pending.fields(), "correlation-id"), Some(&text("-")));
    assert_eq!(value(pending.fields(), "uri"), Some(&text("/upload")));
}

#[test]
fn header_in_utf8_is_kept() {
    let mut req = full_request();
    req.user_agent = Some("caf\u{e9} \u{1f600}".as_bytes().to_vec());
    req.host = Some(Vec::new());
    let pending = service().call_at(&req, at(0, 0));
    assert_eq!(value(pending.fields(), "agent"), Some(&text("caf\u{e9} \u{1f600}")));
    assert_eq!(value(pending.fields(), "http_host"), Some(&text("")));
}

#[test]
fn exclusion_is_an_exact_match() {
    let service = service();
    assert!(service.is_excluded("/liveness"));
    for path in ["/liveness/", "/Liveness", "/liveness?x=1", "liveness", "/", "", "/live"] {
        assert!(!service.is_excluded(path), "{path:?}");
        let pending = service.call_at(&orders_request(path), at(0, 0));
        assert!(!pending.is_excluded(), "{path:?}");
    }
    assert!(service.call_at(&orders_request("/liveness"), at(0, 0)).is_excluded());
}

#[test]
fn excluding_twice_changes_nothing() {
    let config = StructuredLogger::new(()).exclude("/a").exclude("/b").exclude("/a");
    assert!(config.is_excluded("/a"));
    assert!(config.is_excluded("/b"));
    assert!(!config.is_excluded("/c"));
    let service = config.new_transform();
    assert!(service.is_excluded("/a"));
    assert!(service.is_excluded("/b"));
    assert!(!service.is_excluded("/c"));
}

#[test]
fn fresh_configuration_excludes_nothing() {
    let config = StructuredLogger::new(17u32);
    assert!(!config.is_excluded("/liveness"));
    assert!(!config.is_excluded(""));
    assert_eq!(*config.logger(), 17);
    let service = config.exclude("/x").new_transform();
    assert_eq!(*service.logger(), 17);
}

#[test]
fn excluded_request_still_has_its_fields() {
    let mut req = full_request();
    req.path = String::from("/liveness");
    let pending = service().call_at(&req, at(3, 4));
    assert!(pending.is_excluded());
    assert_eq!(pending.fields().len(), 9);
    assert_eq!(value(pending.fields(), "uri"), Some(&text("/liveness")));
    assert_eq!(value(pending.fields(), "agent"), Some(&text("curl/8.0")));
    assert_eq!(pending.timestamp().secs, 3);
    assert_eq!(pending.timestamp().nanos, 4);
}

#[test]
fn error_in_response_is_noted_at_once() {
    let req = orders_request("/orders");
    let res = ResponseHead { status: 404, error: Some(String::from("NotFound(\"order\")")) };
    let (mut stream, note) = service().call_at(&req, at(0, 0)).poll(&res);
    let note = note.expect("a diagnostic entry");
    assert_eq!(note.level, Level::Debug);
    assert_eq!(note.message, "Error in response: NotFound(\"order\")");
    assert_eq!(
        keys(&note),
        vec![
            "http_version",
            "http_host",
            "referer",
            "remote_address",
            "agent",
            "request_method",
            "correlation-id",
            "uri",
            "query_string",
        ]
    );
    assert_eq!(value(&note.fields, "uri"), Some(&text("/orders")));
    let record = stream.close_at(at(0, 0)).expect("the access record all the same");
    assert_eq!(record.level, Level::Info);
    assert_eq!(value(&record.fields, "status"), Some(&FieldValue::U16(404)));
}

#[test]
fn server_fault_is_not_noted() {
    let req = orders_request("/orders");
    let res = ResponseHead { status: 500, error: Some(String::from("boom")) };
    let (mut stream, note) = service().call_at(&req, at(0, 0)).poll(&res);
    assert_eq!(note, None);
    let record = stream.close_at(at(0, 0)).expect("a record");
    assert_eq!(value(&record.fields, "status"), Some(&FieldValue::U16(500)));
}

#[test]
fn response_without_error_is_not_noted() {
    let req = orders_request("/orders");
    for status in [200u16, 404, 500, 503] {
        let (_, note) = service().call_at(&req, at(0, 0)).poll(&ok(status));
        assert_eq!(note, None);
    }
}

#[test]
fn other_server_errors_are_noted() {
    let req = orders_request("/orders");
    for status in [499u16, 501, 503, 200] {
        let res = ResponseHead { status, error: Some(String::new()) };
        let (_, note) = service().call_at(&req, at(0, 0)).poll(&res);
        let note = note.expect("a diagnostic entry");
        assert_eq!(note.message, "Error in response: ");
    }
}

#[test]
fn excluded_request_with_error_is_noted_but_not_logged() {
    let req = orders_request("/liveness");
    let res = ResponseHead { status: 400, error: Some(String::from("bad")) };
    let (mut stream, note) = service().call_at(&req, at(0, 0)).poll(&res);
    assert_eq!(note.expect("a diagnostic entry").level, Level::Debug);
    assert_eq!(stream.poll_next_at(BodyPoll::Chunk(3), at(0, 0)), None);
    assert_eq!(stream.poll_next_at(BodyPoll::End, at(0, 0)), None);
    assert_eq!(stream.close_at(at(0, 0)), None);
}

#[test]
fn response_time_runs_from_acceptance_to_the_terminal_event() {
    let req = orders_request("/orders");
    let accepted = at(1_700_000_000, 250_000_000);
    let mut stream = start(&req, &ok(200), accepted);
    assert_eq!(stream.timestamp().secs, 1_700_000_000);
    assert_eq!(stream.poll_next_at(BodyPoll::Chunk(1), at(1_700_000_009, 0)), None);
    let record = stream.poll_next_at(BodyPoll::End, at(1_700_000_001, 750_999_999)).unwrap();
    assert_eq!(value(&record.fields, "response_time"), Some(&FieldValue::I64(1_500)));
}

#[test]
fn later_end_never_gives_a_shorter_response_time() {
    let req = orders_request("/orders");
    let accepted = at(100, 999_999_999);
    let ends = [at(100, 999_999_999), at(101, 0), at(101, 999_999), at(101, 1_999_999), at(200, 0)];
    let mut last = 0i64;
    for end in ends {
        let mut stream = start(&req, &ok(200), accepted);
        let record = stream.close_at(end).unwrap();
        let Some(FieldValue::I64(ms)) = value(&record.fields, "response_time") else {
            panic!("no response time");
        };
        assert!(*ms >= 0);
        assert!(*ms >= last);
        last = *ms;
    }
    assert_eq!(last, 99_000);
}

#[test]
fn clock_set_back_gives_no_response_time() {
    let req = orders_request("/orders");
    let mut closed = start(&req, &ok(200), at(10, 0));
    let record = closed.close_at(at(5, 0)).expect("a record");
    assert_eq!(value(&record.fields, "response_time"), Some(&FieldValue::I64(0)));

    let mut ended = start(&req, &ok(200), at(10, 0));
    assert_eq!(ended.poll_next_at(BodyPoll::Chunk(2), at(1, 0)), None);
    let record = ended.poll_next_at(BodyPoll::End, at(9, 999_999_999)).expect("a record");
    assert_eq!(value(&record.fields, "response_time"), Some(&FieldValue::I64(0)));
    assert_eq!(value(&record.fields, "bytes_sent"), Some(&FieldValue::Usize(2)));
}

#[test]
fn exclusion_changes_nothing_in_the_draining() {
    let mut logged = start(&orders_request("/orders"), &ok(200), at(0, 0));
    let mut silent = start(&orders_request("/liveness"), &ok(200), at(0, 0));
    let polls = [
        BodyPoll::Pending,
        BodyPoll::Chunk(7),
        BodyPoll::Chunk(0),
        BodyPoll::Failed,
        BodyPoll::Chunk(5),
        BodyPoll::End,
        BodyPoll::Chunk(9),
    ];
    for polled in polls {
        let emitted = logged.poll_next_at(polled, at(1, 0));
        assert_eq!(emitted.is_some(), polled == BodyPoll::End);
        assert_eq!(silent.poll_next_at(polled, at(1, 0)), None);
        assert_eq!(logged.bytes_sent(), silent.bytes_sent());
        assert_eq!(logged.phase(), silent.phase());
    }
    assert_eq!(logged.bytes_sent(), 12);
    assert_eq!(logged.phase(), Phase::Completed);
}
