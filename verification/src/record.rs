//! Structured records: what this crate asks its host to write.

use vstd::prelude::*;

verus! {

/// How much a record matters.
#[derive(Clone, Copy, Debug, PartialEq, Eq)]
pub enum Level {
    /// A diagnostic entry.
    Debug,
    /// An access record.
    Info,
}

/// The value of one field of a record.
#[derive(Debug, PartialEq, Eq)]
pub enum FieldValue {
    Str(String),
    U16(u16),
    Usize(usize),
    I64(i64),
}

/// What a field value stands for.
pub enum FieldValueView {
    Str(Seq<char>),
    U16(int),
    Usize(int),
    I64(int),
}

impl View for FieldValue {
    type V = FieldValueView;

    open spec fn view(&self) -> FieldValueView {
        match *self {
            FieldValue::Str(text) => FieldValueView::Str(text@),
            FieldValue::U16(n) => FieldValueView::U16(n as int),
            FieldValue::Usize(n) => FieldValueView::Usize(n as int),
            FieldValue::I64(n) => FieldValueView::I64(n as int),
        }
    }
}

impl Clone for FieldValue {
    fn clone(&self) -> (copy: Self)
        ensures
            copy == *self,
    {
        match self {
            FieldValue::Str(text) => FieldValue::Str(text.clone()),
            FieldValue::U16(n) => FieldValue::U16(*n),
            FieldValue::Usize(n) => FieldValue::Usize(*n),
            FieldValue::I64(n) => FieldValue::I64(*n),
        }
    }
}

/// One field of a record: a key and the value emitted under it.
#[derive(Debug, PartialEq, Eq)]
pub struct Field {
    pub key: &'static str,
    pub value: FieldValue,
}

/// What a field stands for.
pub struct FieldView {
    pub key: Seq<char>,
    pub value: FieldValueView,
}

impl View for Field {
    type V = FieldView;

    open spec fn view(&self) -> FieldView {
        FieldView { key: self.key@, value: self.value@ }
    }
}

impl Clone for Field {
    fn clone(&self) -> (copy: Self)
        ensures
            copy == *self,
    {
        Field { key: self.key, value: self.value.clone() }
    }
}

/// What a list of fields stands for.
pub open spec fn field_views(fields: Seq<Field>) -> Seq<FieldView> {
    fields.map_values(|f: Field| f@)
}

/// The value of the first field under `key`, if there is one.
pub open spec fn lookup(fields: Seq<FieldView>, key: Seq<char>) -> Option<FieldValueView>
    decreases fields.len(),
{
    if fields.len() == 0 {
        None
    } else if fields[0].key == key {
        Some(fields[0].value)
    } else {
        lookup(fields.drop_first(), key)
    }
}

/// A record to be written: its level, its message, and its fields in the
/// order in which they were bound.
#[derive(Debug, PartialEq, Eq)]
pub struct LogRecord {
    pub level: Level,
    pub message: String,
    pub fields: Vec<Field>,
}

/// What a record stands for.
pub struct LogRecordView {
    pub level: Level,
    pub message: Seq<char>,
    pub fields: Seq<FieldView>,
}

impl View for LogRecord {
    type V = LogRecordView;

    open spec fn view(&self) -> LogRecordView {
        LogRecordView {
            level: self.level,
            message: self.message@,
            fields: field_views(self.fields@),
        }
    }
}

/// What a record that may be absent stands for.
pub open spec fn record_view(record: Option<LogRecord>) -> Option<LogRecordView> {
    match record {
        Some(r) => Some(r@),
        None => None,
    }
}

/// A copy of a list of fields.
pub fn copy_fields(fields: &Vec<Field>) -> (copy: Vec<Field>)
    ensures
        copy@ == fields@,
{
    let mut copy: Vec<Field> = Vec::new();
    let mut i: usize = 0;
    while i < fields.len()
        invariant
            i <= fields.len(),
            copy@ == fields@.take(i as int),
        decreases fields.len() - i,
    {
        copy.push(fields[i].clone());
        assert(copy@ =~= fields@.take(i + 1));
        i += 1;
    }
    assert(fields@.take(i as int) =~= fields@);
    copy
}

} // verus!

