use vstd::prelude::*;

use crate::annotation::{build_spec, Annotation, AnnotationModel};
use crate::severity::{classify, classify_spec};

verus! {

/// One source-location reference carried by a diagnostic: the file it names
/// and the 1-based line its range starts at, each absent when the raw span
/// lacks the field or the field is not of the expected shape.
#[derive(Debug)]
pub struct RawSpan {
    pub file_name: Option<String>,
    pub line_start: Option<u64>,
}

/// The mathematical content of a raw span.
pub struct SpanModel {
    pub file_name: Option<Seq<char>>,
    pub line_start: Option<u64>,
}

impl DeepView for RawSpan {
    type V = SpanModel;

    open spec fn deep_view(&self) -> SpanModel {
        SpanModel { file_name: self.file_name.deep_view(), line_start: self.line_start }
    }
}

/// One raw diagnostic record as decoded from a single line of linter
/// output: its kind discriminant, its human-readable message text, its
/// level text, and its span list. Each field is absent when the record
/// lacks it or it is not of the expected shape.
#[derive(Debug)]
pub struct RawRecord {
    pub reason: Option<String>,
    pub message: Option<String>,
    pub level: Option<String>,
    pub spans: Option<Vec<RawSpan>>,
}

/// The mathematical content of a raw record.
pub struct RecordModel {
    pub reason: Option<Seq<char>>,
    pub message: Option<Seq<char>>,
    pub level: Option<Seq<char>>,
    pub spans: Option<Seq<SpanModel>>,
}

impl DeepView for RawRecord {
    type V = RecordModel;

    open spec fn deep_view(&self) -> RecordModel {
        RecordModel {
            reason: self.reason.deep_view(),
            message: self.message.deep_view(),
            level: self.level.deep_view(),
            spans: self.spans.deep_view(),
        }
    }
}

/// What one raw diagnostic line decodes to: `None` when the line is not a
/// single well-formed structured record, otherwise the record's fields as
/// far as they are present and of the expected shape. The decode depends on
/// the line's characters alone.
pub uninterp spec fn record_of(line: Seq<char>) -> Option<RecordModel>;

/// Relies on serde_json: `from_str` parses one line of linter output as a
/// JSON value, and the `Index`, `as_str`, `as_u64` and `as_array` accessors
/// read its fields, handing back `None` for an absent or mistyped field
/// instead of failing.
#[verifier::external_body]
pub(crate) fn parse_record(line: &str) -> (r: Option<RawRecord>)
    ensures
        r.deep_view() == record_of(line@),
{
    let v: serde_json::Value = match serde_json::from_str(line) {
        Ok(v) => v,
        Err(_) => return None,
    };
    Some(RawRecord {
        reason: v["reason"].as_str().map(str::to_owned),
        message: v["message"]["message"].as_str().map(str::to_owned),
        level: v["message"]["level"].as_str().map(str::to_owned),
        spans: v["message"]["spans"].as_array().map(|a| a.iter().map(|s| RawSpan {
            file_name: s["file_name"].as_str().map(str::to_owned),
            line_start: s["line_start"].as_u64(),
        }).collect()),
    })
}

/// The location a diagnostic contributes: the first span's file and start
/// line when the span list is present and non-empty, nothing otherwise.
pub open spec fn record_location(m: RecordModel) -> (Option<Seq<char>>, Option<u64>) {
    match m.spans {
        Some(sp) => if sp.len() > 0 {
            (sp[0].file_name, sp[0].line_start)
        } else {
            (None, None)
        },
        None => (None, None),
    }
}

/// What the mapper emits for one decoded record: nothing unless the record
/// is a compiler message with both message and level text, and otherwise
/// whatever the annotation builder makes of the message, the classified
/// level, and the first span's location — nothing again when the builder
/// rejects that input.
pub open spec fn annotation_of_record(m: RecordModel) -> Option<AnnotationModel> {
    if m.reason == Some("compiler-message"@) && m.message is Some && m.level is Some {
        match build_spec(
            m.message->0,
            Some(classify_spec(m.level->0)),
            record_location(m).0,
            record_location(m).1,
        ) {
            Ok(a) => Some(a),
            Err(_) => None,
        }
    } else {
        None
    }
}

/// Turn one decoded diagnostic record into an annotation, or nothing when
/// the record is not an actionable compiler message or fails validation.
pub fn record_to_annotation(rec: RawRecord) -> (r: Option<Annotation>)
    ensures
        r.deep_view() == annotation_of_record(rec.deep_view()),
{
    let RawRecord { reason, message, level, spans } = rec;
    let is_diagnostic = match &reason {
        Some(s) => *s == "compiler-message".to_owned(),
        None => false,
    };
    if !is_diagnostic {
        return None;
    }
    let msg = match message {
        Some(m) => m,
        None => return None,
    };
    let lvl = match level {
        Some(l) => l,
        None => return None,
    };
    let sev = classify(lvl.as_str());
    let (path, line) = match spans {
        Some(mut sp) => {
            if sp.len() > 0 {
                let first = sp.remove(0);
                (first.file_name, first.line_start)
            } else {
                (None, None)
            }
        },
        None => (None, None),
    };
    match Annotation::build(msg, Some(sev), path, line) {
        Ok(a) => Some(a),
        Err(_) => None,
    }
}

/// Law: a record whose kind is not `compiler-message` yields no annotation.
pub proof fn lemma_non_diagnostic_skipped(m: RecordModel)
    requires
        m.reason != Some("compiler-message"@),
    ensures
        annotation_of_record(m) is None,
{
}

/// Law: a compiler message with a non-empty message text, a level, and an
/// empty span list yields exactly one annotation, with its message and
/// classified level and with no path and no line.
pub proof fn lemma_empty_spans_no_location(m: RecordModel)
    requires
        m.reason == Some("compiler-message"@),
        m.message matches Some(msg) && msg.len() > 0,
        m.level is Some,
        m.spans == Some(Seq::<SpanModel>::empty()),
    ensures
        annotation_of_record(m) matches Some(a) && a.message == m.message->0 && a.severity
            == classify_spec(m.level->0) && a.path is None && a.line is None,
{
}

/// Law: a record's annotation depends only on its first span; every span
/// after the first is ignored.
pub proof fn lemma_first_span_only(m: RecordModel)
    requires
        m.spans matches Some(sp) && sp.len() > 0,
    ensures
        annotation_of_record(m) == annotation_of_record(
            RecordModel {
                reason: m.reason,
                message: m.message,
                level: m.level,
                spans: Some(seq![m.spans->0[0]]),
            },
        ),
{
    let trimmed = RecordModel {
        reason: m.reason,
        message: m.message,
        level: m.level,
        spans: Some(seq![m.spans->0[0]]),
    };
    assert(seq![m.spans->0[0]].len() == 1);
    assert(seq![m.spans->0[0]][0] == m.spans->0[0]);
    assert(record_location(m) == record_location(trimmed));
}

} // verus!
