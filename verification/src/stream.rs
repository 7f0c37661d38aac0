//! The response body under observation: bytes are counted as they drain,
//! and the access record is emitted once, when the body ends or is given up.

use vstd::prelude::*;
use crate::clock::{response_time, Timestamp};
use crate::record::{
    copy_fields, field_views, record_view, Field, FieldValue, FieldValueView, FieldView, Level,
    LogRecord, LogRecordView,
};

verus! {

/// Where an observed body stands.
#[derive(Clone, Copy, Debug, PartialEq, Eq)]
pub enum Phase {
    /// The body may still yield chunks.
    Streaming,
    /// The body was read to its end.
    Completed,
    /// The body was given up before its end.
    Abandoned,
}

/// What one poll of the wrapped body gave.
#[derive(Clone, Copy, Debug, PartialEq, Eq)]
pub enum BodyPoll {
    /// Nothing yet.
    Pending,
    /// A chunk of this many bytes.
    Chunk(usize),
    /// An error in place of a chunk.
    Failed,
    /// The end of the body.
    End,
}

/// What can happen to an observed body.
#[derive(Clone, Copy, Debug, PartialEq, Eq)]
pub enum BodyEvent {
    /// The wrapped body was polled.
    Polled(BodyPoll),
    /// The observed body was disposed of.
    Closed,
}

/// An observed response body.
pub struct StreamLog {
    fields: Vec<Field>,
    is_exclude: bool,
    timestamp: Timestamp,
    size: usize,
    phase: Phase,
}

/// What an observed body stands for.
pub struct StreamLogView {
    /// The fields bound to every record of this request.
    pub fields: Seq<FieldView>,
    /// Whether the request's path is excluded.
    pub is_exclude: bool,
    /// When the request was accepted.
    pub timestamp: Timestamp,
    /// The bytes drained so far.
    pub size: nat,
    /// Where the body stands.
    pub phase: Phase,
}

impl View for StreamLog {
    type V = StreamLogView;

    closed spec fn view(&self) -> StreamLogView {
        StreamLogView {
            fields: field_views(self.fields@),
            is_exclude: self.is_exclude,
            timestamp: self.timestamp,
            size: self.size as nat,
            phase: self.phase,
        }
    }
}

/// The access record of a body that reached its terminal state at `at`.
pub open spec fn access_record(s: StreamLogView, at: int) -> LogRecordView {
    LogRecordView {
        level: Level::Info,
        message: seq!['-'],
        fields: s.fields + seq![
            FieldView { key: "bytes_sent"@, value: FieldValueView::Usize(s.size as int) },
            FieldView {
                key: "response_time"@,
                value: FieldValueView::I64(response_time(s.timestamp@, at) as int),
            },
        ],
    }
}

/// A streaming body enters the terminal state `phase` at `at`: the access
/// record is emitted, unless the request is excluded.
pub open spec fn finish(s: StreamLogView, phase: Phase, at: int) -> (
    StreamLogView,
    Option<LogRecordView>,
) {
    (
        StreamLogView { phase, ..s },
        if s.is_exclude {
            None
        } else {
            Some(access_record(s, at))
        },
    )
}

/// One event at the instant `at`: the state that follows and the record
/// emitted, if any. A body in a terminal state takes no notice of events.
pub open spec fn step(s: StreamLogView, event: BodyEvent, at: int) -> (
    StreamLogView,
    Option<LogRecordView>,
) {
    if s.phase != Phase::Streaming {
        (s, None)
    } else {
        match event {
            BodyEvent::Polled(BodyPoll::Chunk(len)) => (
                StreamLogView { size: s.size + len as nat, ..s },
                None,
            ),
            BodyEvent::Polled(BodyPoll::End) => finish(s, Phase::Completed, at),
            BodyEvent::Polled(_) => (s, None),
            BodyEvent::Closed => finish(s, Phase::Abandoned, at),
        }
    }
}

/// Whether the byte counter can take what `polled` brings.
pub open spec fn countable(s: StreamLogView, polled: BodyPoll) -> bool {
    s.phase == Phase::Streaming ==> (polled matches BodyPoll::Chunk(len) ==> s.size + len
        <= usize::MAX)
}

impl StreamLog {
    /// A body of which nothing has drained yet, for a request accepted at
    /// `timestamp` with `fields` bound to its records.
    pub(crate) fn new(fields: Vec<Field>, is_exclude: bool, timestamp: Timestamp) -> (stream:
        StreamLog)
        ensures
            stream@ == (StreamLogView {
                fields: field_views(fields@),
                is_exclude,
                timestamp,
                size: 0,
                phase: Phase::Streaming,
            }),
    {
        StreamLog { fields, is_exclude, timestamp, size: 0, phase: Phase::Streaming }
    }

    /// Enters the terminal state `phase` at `now`.
    fn finish_at(&mut self, phase: Phase, now: Timestamp) -> (emitted: Option<LogRecord>)
        requires
            old(self)@.phase == Phase::Streaming,
        ensures
            (final(self)@, record_view(emitted)) == finish(old(self)@, phase, now@),
    {
        self.phase = phase;
        if self.is_exclude {
            None
        } else {
            let mut fields = copy_fields(&self.fields);
            fields.push(Field { key: "bytes_sent", value: FieldValue::Usize(self.size) });
            fields.push(
                Field {
                    key: "response_time",
                    value: FieldValue::I64(self.timestamp.millis_until(&now)),
                },
            );
            proof {
                reveal_strlit("-");
            }
            let record = LogRecord { level: Level::Info, message: "-".to_owned(), fields };
            assert(record@.message =~= seq!['-']);
            assert(record@.fields =~= access_record(old(self)@, now@).fields);
            Some(record)
        }
    }

    /// Takes note of one poll of the wrapped body, made at `now`. A chunk
    /// adds its length to the byte counter. The end of the body completes
    /// it, and the access record is returned, unless the request is
    /// excluded. Once the body is in a terminal state nothing changes any
    /// more and nothing is returned.
    pub fn poll_next_at(&mut self, polled: BodyPoll, now: Timestamp) -> (emitted: Option<
        LogRecord,
    >)
        requires
            countable(old(self)@, polled),
        ensures
            (final(self)@, record_view(emitted)) == step(
                old(self)@,
                BodyEvent::Polled(polled),
                now@,
            ),
    {
        match self.phase {
            Phase::Streaming => match polled {
                BodyPoll::Chunk(len) => {
                    self.size = self.size + len;
                    None
                },
                BodyPoll::End => self.finish_at(Phase::Completed, now),
                BodyPoll::Pending => None,
                BodyPoll::Failed => None,
            },
            _ => None,
        }
    }

    /// Disposes of the body at `now`. A body that was still streaming is
    /// thereby abandoned, and the access record is returned, unless the
    /// request is excluded. A body in a terminal state stays as it is and
    /// nothing is returned.
    pub fn close_at(&mut self, now: Timestamp) -> (emitted: Option<LogRecord>)
        ensures
            (final(self)@, record_view(emitted)) == step(old(self)@, BodyEvent::Closed, now@),
    {
        match self.phase {
            Phase::Streaming => self.finish_at(Phase::Abandoned, now),
            _ => None,
        }
    }

    /// The bytes drained so far.
    pub fn bytes_sent(&self) -> (size: usize)
        ensures
            size == self@.size,
    {
        self.size
    }

    /// Where the body stands.
    pub fn phase(&self) -> (phase: Phase)
        ensures
            phase == self@.phase,
    {
        self.phase
    }

    /// Whether the request's path is excluded.
    pub fn is_excluded(&self) -> (is_exclude: bool)
        ensures
            is_exclude == self@.is_exclude,
    {
        self.is_exclude
    }

    /// When the request was accepted.
    pub fn timestamp(&self) -> (timestamp: Timestamp)
        ensures
            timestamp == self@.timestamp,
    {
        self.timestamp
    }

    /// The fields bound to every record of this request.
    pub fn fields(&self) -> (fields: &Vec<Field>)
        ensures
            field_views(fields@) == self@.fields,
    {
        &self.fields
    }
}

} // verus!
