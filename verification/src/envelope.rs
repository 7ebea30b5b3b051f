//! The structured response envelope the external AI command line may emit:
//! a response text, an optional error record, and optional usage statistics.
//! The adapter reads only the response and the error; statistics are
//! accepted in the input but not retained.

use vstd::prelude::*;
use crate::json::{json_as_i64, json_as_str, json_get, json_is_null, json_parse, json_view, json_of,
    JsonData};

verus! {

/// Model of an envelope's error record.
pub ghost struct ErrorRecordView {
    pub error_type: Seq<char>,
    pub message: Seq<char>,
    pub code: Option<int>,
}

/// Model of an envelope: the two fields the adapter reads.
pub ghost struct EnvelopeRecordView {
    pub response: Seq<char>,
    pub error: Option<ErrorRecordView>,
}

/// The error record inside an envelope.
#[derive(Debug)]
pub struct GeminiErrorResponse {
    pub error_type: String,
    pub message: String,
    pub code: Option<i32>,
}

impl View for GeminiErrorResponse {
    type V = ErrorRecordView;

    open spec fn view(&self) -> ErrorRecordView {
        ErrorRecordView {
            error_type: self.error_type@,
            message: self.message@,
            code: match self.code {
                Some(c) => Some(c as int),
                None => None,
            },
        }
    }
}

/// Usage statistics of one model, as the external command line reports them.
#[derive(Debug)]
pub struct ModelStats {
    pub api: Option<ApiStats>,
    pub tokens: Option<TokenStats>,
}

/// Request counters of one model.
#[derive(Debug)]
pub struct ApiStats {
    pub total_requests: Option<i32>,
    pub total_errors: Option<i32>,
    pub total_latency_ms: Option<i32>,
}

/// Token counters of one model.
#[derive(Debug)]
pub struct TokenStats {
    pub prompt: Option<i32>,
    pub candidates: Option<i32>,
    pub total: Option<i32>,
    pub cached: Option<i32>,
    pub thoughts: Option<i32>,
    pub tool: Option<i32>,
}

/// Accept/reject counters of tool decisions.
#[derive(Debug)]
pub struct DecisionStats {
    pub accept: Option<i32>,
    pub reject: Option<i32>,
    pub modify: Option<i32>,
    pub auto_accept: Option<i32>,
}

/// Counters of one named tool.
#[derive(Debug)]
pub struct ToolDetailStats {
    pub count: Option<i32>,
    pub success: Option<i32>,
    pub fail: Option<i32>,
    pub duration_ms: Option<i32>,
    pub decisions: Option<DecisionStats>,
}

/// Counters over all tool calls.
#[derive(Debug)]
pub struct ToolStats {
    pub total_calls: Option<i32>,
    pub total_success: Option<i32>,
    pub total_fail: Option<i32>,
    pub total_duration_ms: Option<i32>,
    pub total_decisions: Option<DecisionStats>,
    pub by_name: Option<std::collections::HashMap<String, ToolDetailStats>>,
}

/// Line counters over touched files.
#[derive(Debug)]
pub struct FileStats {
    pub total_lines_added: Option<i32>,
    pub total_lines_removed: Option<i32>,
}

/// The usage-statistics record of an envelope.  The adapter ignores it
/// beyond carrying it; nothing downstream reads it.
#[derive(Debug)]
pub struct GeminiStats {
    pub models: Option<std::collections::HashMap<String, ModelStats>>,
    pub tools: Option<ToolStats>,
    pub files: Option<FileStats>,
}

/// A structured response envelope.
#[derive(Debug)]
pub struct GeminiJsonResponse {
    pub response: String,
    pub stats: Option<GeminiStats>,
    pub error: Option<GeminiErrorResponse>,
}

impl View for GeminiJsonResponse {
    type V = EnvelopeRecordView;

    open spec fn view(&self) -> EnvelopeRecordView {
        EnvelopeRecordView {
            response: self.response@,
            error: match self.error {
                Some(e) => Some(e@),
                None => None,
            },
        }
    }
}

/// The error record a JSON value holds, if it is a well-formed one: an
/// object whose `type` and `message` are strings and whose `code`, if
/// present and not null, is an integer in 32-bit signed range.
pub open spec fn error_record_spec(j: JsonData) -> Option<ErrorRecordView> {
    match j {
        JsonData::JObj(m) => {
            if m.contains_key("type"@) && m["type"@] is JStr && m.contains_key("message"@)
                && m["message"@] is JStr {
                let et = match m["type"@] {
                    JsonData::JStr(s) => s,
                    _ => Seq::empty(),
                };
                let msg = match m["message"@] {
                    JsonData::JStr(s) => s,
                    _ => Seq::empty(),
                };
                match code_field_spec(m) {
                    Some(code) => Some(ErrorRecordView { error_type: et, message: msg, code }),
                    None => None,
                }
            } else {
                None
            }
        },
        _ => None,
    }
}

/// The `code` field of an error object: absent or null means no code, an
/// integer in 32-bit signed range is the code, anything else makes the
/// record ill-formed.
pub open spec fn code_field_spec(m: Map<Seq<char>, JsonData>) -> Option<Option<int>> {
    if !m.contains_key("code"@) {
        Some(None)
    } else {
        match m["code"@] {
            JsonData::JNull => Some(None),
            JsonData::JNum(oi) => match oi {
                Some(n) => if i32::MIN <= n <= i32::MAX {
                    Some(Some(n))
                } else {
                    None
                },
                None => None,
            },
            _ => None,
        }
    }
}

/// The envelope a JSON document holds, if it is a well-formed one: an object
/// whose `response` is a string and whose `error`, if present and not null,
/// is a well-formed error record.
pub open spec fn envelope_spec(j: JsonData) -> Option<EnvelopeRecordView> {
    match j {
        JsonData::JObj(m) => {
            if m.contains_key("response"@) && m["response"@] is JStr {
                let resp = match m["response"@] {
                    JsonData::JStr(s) => s,
                    _ => Seq::empty(),
                };
                if !m.contains_key("error"@) || m["error"@] is JNull {
                    Some(EnvelopeRecordView { response: resp, error: None })
                } else {
                    match error_record_spec(m["error"@]) {
                        Some(ev) => Some(
                            EnvelopeRecordView { response: resp, error: Some(ev) },
                        ),
                        None => None,
                    }
                }
            } else {
                None
            }
        },
        _ => None,
    }
}

/// The envelope a text holds when parsed as one JSON document, if any.
pub open spec fn envelope_of_text(s: Seq<char>) -> Option<EnvelopeRecordView> {
    match json_of(s) {
        Some(j) => envelope_spec(j),
        None => None,
    }
}

/// Read the error record out of a JSON value, if it is a well-formed one.
fn error_record_from_value(v: &serde_json::Value) -> (r: Option<GeminiErrorResponse>)
    ensures
        match error_record_spec(json_view(*v)) {
            Some(ev) => r matches Some(e) && e@ == ev,
            None => r is None,
        },
{
    let tv = match json_get(v, "type") {
        Some(tv) => tv,
        None => {
            return None;
        },
    };
    let et = match json_as_str(tv) {
        Some(s) => s,
        None => {
            return None;
        },
    };
    let mv = match json_get(v, "message") {
        Some(mv) => mv,
        None => {
            return None;
        },
    };
    let msg = match json_as_str(mv) {
        Some(s) => s,
        None => {
            return None;
        },
    };
    let code: Option<i32> = match json_get(v, "code") {
        None => None,
        Some(cv) => {
            if json_is_null(cv) {
                None
            } else {
                match json_as_i64(cv) {
                    Some(n) => {
                        if i32::MIN as i64 <= n && n <= i32::MAX as i64 {
                            Some(n as i32)
                        } else {
                            return None;
                        }
                    },
                    None => {
                        return None;
                    },
                }
            }
        },
    };
    Some(GeminiErrorResponse { error_type: et.to_owned(), message: msg.to_owned(), code })
}

/// Read the envelope out of a parsed JSON document, if it is a well-formed
/// one.  Usage statistics are not retained.
pub fn envelope_from_value(v: &serde_json::Value) -> (r: Option<GeminiJsonResponse>)
    ensures
        match envelope_spec(json_view(*v)) {
            Some(ev) => r matches Some(e) && e@ == ev,
            None => r is None,
        },
{
    let rv = match json_get(v, "response") {
        Some(rv) => rv,
        None => {
            return None;
        },
    };
    let resp = match json_as_str(rv) {
        Some(s) => s,
        None => {
            return None;
        },
    };
    let error: Option<GeminiErrorResponse> = match json_get(v, "error") {
        None => None,
        Some(ev) => {
            if json_is_null(ev) {
                None
            } else {
                match error_record_from_value(ev) {
                    Some(e) => Some(e),
                    None => {
                        return None;
                    },
                }
            }
        },
    };
    Some(GeminiJsonResponse { response: resp.to_owned(), stats: None, error })
}

/// Parse a text as one well-formed envelope, if it is one.
pub fn parse_envelope(s: &str) -> (r: Option<GeminiJsonResponse>)
    ensures
        match envelope_of_text(s@) {
            Some(ev) => r matches Some(e) && e@ == ev,
            None => r is None,
        },
{
    match json_parse(s) {
        Some(v) => envelope_from_value(&v),
        None => None,
    }
}

} // verus!
