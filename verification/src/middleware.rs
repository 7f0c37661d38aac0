//! The interceptor: what is gathered when a request is accepted, and what
//! is decided when its response is ready.

use vstd::prelude::*;
use vstd::string::StringExecFns;
use crate::clock::Timestamp;
use crate::field_names::FieldNames;
use crate::logger::StructuredLogger;
use crate::record::{
    copy_fields, field_views, record_view, Field, FieldValue, FieldValueView, FieldView, Level,
    LogRecord, LogRecordView,
};
use crate::request::{RequestHead, ResponseHead, INTERNAL_SERVER_ERROR};
use crate::stream::{Phase, StreamLog, StreamLogView};
use crate::text::{
    bytes_of, chars_of, header_text, header_value, query_text, query_value, text_or_placeholder,
    text_value,
};

verus! {

/// The fields drawn from a request, under the keys `names`, in the order in
/// which they are bound.
pub open spec fn request_fields(names: FieldNames, req: RequestHead) -> Seq<FieldView> {
    seq![
        FieldView { key: names.http_version@, value: FieldValueView::Str(req.version@) },
        FieldView {
            key: names.http_host@,
            value: FieldValueView::Str(header_text(bytes_of(req.host))),
        },
        FieldView {
            key: names.referer@,
            value: FieldValueView::Str(header_text(bytes_of(req.referer))),
        },
        FieldView {
            key: names.remote_address@,
            value: FieldValueView::Str(text_or_placeholder(chars_of(req.remote_addr))),
        },
        FieldView {
            key: names.user_agent@,
            value: FieldValueView::Str(header_text(bytes_of(req.user_agent))),
        },
        FieldView { key: names.request_method@, value: FieldValueView::Str(req.method@) },
        FieldView {
            key: names.correlation_id@,
            value: FieldValueView::Str(header_text(bytes_of(req.correlation_id))),
        },
        FieldView { key: names.uri@, value: FieldValueView::Str(req.path@) },
        FieldView { key: names.query_string@, value: FieldValueView::Str(query_text(req.query@)) },
    ]
}

/// What a request in flight stands for.
pub struct LoggerResponseView {
    /// The fields bound to every record of this request.
    pub fields: Seq<FieldView>,
    /// When the request was accepted.
    pub timestamp: Timestamp,
    /// Whether the request's path is excluded.
    pub is_exclude: bool,
}

/// The context of a request accepted at `now` under the exclusions
/// `excluded`.
pub open spec fn accepted(excluded: Set<Seq<char>>, req: RequestHead, now: Timestamp) -> LoggerResponseView {
    LoggerResponseView {
        fields: request_fields(FieldNames::defaults(), req),
        timestamp: now,
        is_exclude: excluded.contains(req.path@),
    }
}

/// The field that carries the status of the response.
pub open spec fn status_field(status: u16) -> FieldView {
    FieldView { key: "status"@, value: FieldValueView::U16(status as int) }
}

/// The diagnostic entry for a response: written when the response carries
/// an error and its status is not that of a generic server fault.
pub open spec fn diagnostic(ctx: LoggerResponseView, res: ResponseHead) -> Option<LogRecordView> {
    match res.error {
        Some(error) => if res.status != INTERNAL_SERVER_ERROR {
            Some(
                LogRecordView {
                    level: Level::Debug,
                    message: "Error in response: "@ + error@,
                    fields: ctx.fields,
                },
            )
        } else {
            None
        },
        None => None,
    }
}

/// The observed body with which the response of a request starts out.
pub open spec fn observed(ctx: LoggerResponseView, res: ResponseHead) -> StreamLogView {
    StreamLogView {
        fields: ctx.fields.push(status_field(res.status)),
        is_exclude: ctx.is_exclude,
        timestamp: ctx.timestamp,
        size: 0,
        phase: Phase::Streaming,
    }
}

/// The access log in service: its configuration can no longer change.
pub struct StructuredLoggerMiddleware<L> {
    inner: StructuredLogger<L>,
}

/// A request in flight: what was gathered when it was accepted.
pub struct LoggerResponse {
    fields: Vec<Field>,
    timestamp: Timestamp,
    is_exclude: bool,
}

impl View for LoggerResponse {
    type V = LoggerResponseView;

    closed spec fn view(&self) -> LoggerResponseView {
        LoggerResponseView {
            fields: field_views(self.fields@),
            timestamp: self.timestamp,
            is_exclude: self.is_exclude,
        }
    }
}

impl<L> StructuredLogger<L> {
    /// Puts the access log into service.
    pub fn new_transform(self) -> (service: StructuredLoggerMiddleware<L>)
        ensures
            service.base_logger() == self.base_logger(),
            service.excluded() == self.excluded(),
    {
        StructuredLoggerMiddleware { inner: self }
    }
}

impl<L> StructuredLoggerMiddleware<L> {
    /// The base logger.
    pub closed spec fn base_logger(self) -> L {
        self.inner.base_logger()
    }

    /// The paths for which no access record is written.
    pub closed spec fn excluded(self) -> Set<Seq<char>> {
        self.inner.excluded()
    }

    /// The base logger.
    pub fn logger(&self) -> (logger: &L)
        ensures
            *logger == self.base_logger(),
    {
        self.inner.logger()
    }

    /// Whether requests for `path` are excluded.
    pub fn is_excluded(&self, path: &str) -> (found: bool)
        ensures
            found == self.excluded().contains(path@),
    {
        self.inner.is_excluded(path)
    }

    /// Accepts a request at `now`: notes whether its path is excluded and
    /// gathers its fields, whether it is or not.
    pub fn call_at(&self, req: &RequestHead, now: Timestamp) -> (pending: LoggerResponse)
        ensures
            pending@ == accepted(self.excluded(), *req, now),
    {
        let is_exclude = self.inner.is_excluded(req.path.as_str());
        let names = FieldNames::default();
        let mut fields: Vec<Field> = Vec::new();
        fields.push(Field { key: names.http_version, value: FieldValue::Str(req.version.clone()) });
        fields.push(Field { key: names.http_host, value: FieldValue::Str(header_value(&req.host)) });
        fields.push(
            Field { key: names.referer, value: FieldValue::Str(header_value(&req.referer)) },
        );
        fields.push(
            Field {
                key: names.remote_address,
                value: FieldValue::Str(text_value(&req.remote_addr)),
            },
        );
        fields.push(
            Field { key: names.user_agent, value: FieldValue::Str(header_value(&req.user_agent)) },
        );
        fields.push(
            Field { key: names.request_method, value: FieldValue::Str(req.method.clone()) },
        );
        fields.push(
            Field {
                key: names.correlation_id,
                value: FieldValue::Str(header_value(&req.correlation_id)),
            },
        );
        fields.push(Field { key: names.uri, value: FieldValue::Str(req.path.clone()) });
        fields.push(
            Field {
                key: names.query_string,
                value: FieldValue::Str(query_value(req.query.as_str())),
            },
        );
        assert(field_views(fields@) =~= request_fields(FieldNames::defaults(), *req));
        LoggerResponse { fields, timestamp: now, is_exclude }
    }
}

impl LoggerResponse {
    /// The response is ready: binds its status to the fields of the request
    /// and starts to observe its body. Also returns the diagnostic entry,
    /// where the response carries an error and is no generic server fault.
    pub fn poll(self, res: &ResponseHead) -> (out: (StreamLog, Option<LogRecord>))
        ensures
            out.0@ == observed(self@, *res),
            record_view(out.1) == diagnostic(self@, *res),
    {
        let note = match &res.error {
            Some(error) => if res.status != INTERNAL_SERVER_ERROR {
                let mut message = "Error in response: ".to_owned();
                message.append(error.as_str());
                Some(
                    LogRecord {
                        level: Level::Debug,
                        message,
                        fields: copy_fields(&self.fields),
                    },
                )
            } else {
                None
            },
            None => None,
        };
        let mut fields = self.fields;
        fields.push(Field { key: "status", value: FieldValue::U16(res.status) });
        assert(field_views(fields@) =~= self@.fields.push(status_field(res.status)));
        (StreamLog::new(fields, self.is_exclude, self.timestamp), note)
    }

    /// Whether the request's path is excluded.
    pub fn is_excluded(&self) -> (is_exclude: bool)
        ensures
            is_exclude == self@.is_exclude,
    {
        self.is_exclude
    }

    /// When the request was accepted.
    pub fn timestamp(&self) -> (timestamp: Timestamp)
        ensures
            timestamp == self@.timestamp,
    {
        self.timestamp
    }

    /// The fields bound to every record of this request.
    pub fn fields(&self) -> (fields: &Vec<Field>)
        ensures
            field_views(fields@) == self@.fields,
    {
        &self.fields
    }
}

} // verus!
