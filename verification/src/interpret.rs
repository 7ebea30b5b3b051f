//! Interpretation of the captured output of the external AI command line.
//!
//! In plain-text mode the raw text is returned unchanged.  In structured
//! mode three strategies are tried in strict order: the whole trimmed text
//! as one envelope; each balanced-brace region of the text as an envelope,
//! taking the first well-formed one; each line beginning with an opening
//! brace as an envelope.  If all three fail, the outcome is a failure that
//! preserves the raw text together with a fixed diagnostic.

use vstd::prelude::*;
use crate::envelope::{envelope_of_text, parse_envelope, EnvelopeRecordView, GeminiJsonResponse};
use crate::json::{json_of, json_parse};
use crate::text::{starts_with_lbrace, trim_spec, trim_str};

verus! {

/// The outcome of interpreting captured output.
#[derive(Debug)]
pub enum ParseResult {
    JsonSuccess(GeminiJsonResponse),
    TextFallback(String),
    ParseError { raw_output: String, error: String },
}

/// Model of an interpretation outcome.
pub ghost enum ParseOutcomeView {
    Structured(EnvelopeRecordView),
    Text(Seq<char>),
    Failure { raw: Seq<char>, diagnostic: Seq<char> },
}

impl View for ParseResult {
    type V = ParseOutcomeView;

    open spec fn view(&self) -> ParseOutcomeView {
        match self {
            ParseResult::JsonSuccess(e) => ParseOutcomeView::Structured(e@),
            ParseResult::TextFallback(t) => ParseOutcomeView::Text(t@),
            ParseResult::ParseError { raw_output, error } => ParseOutcomeView::Failure {
                raw: raw_output@,
                diagnostic: error@,
            },
        }
    }
}

/// The fixed diagnostic carried by a parse failure.
pub open spec fn diagnostic_message() -> Seq<char> {
    "Failed to parse JSON from gemini CLI output"@
}

/// First strategy: the whole trimmed text as one envelope.
pub open spec fn tier_direct(s: Seq<char>) -> Option<EnvelopeRecordView> {
    envelope_of_text(trim_spec(s))
}

/// Scan for balanced-brace regions from position `i` at nesting `depth`
/// (the region open since `start` when `depth > 0`); the first region that
/// is a well-formed envelope is the result.  A closing brace at depth zero
/// is ignored.
pub open spec fn scan_from(s: Seq<char>, i: int, depth: int, start: int) -> Option<
    EnvelopeRecordView,
>
    decreases s.len() - i when 0 <= i <= s.len()
{
    if i >= s.len() {
        None
    } else if s[i] == '{' {
        if depth == 0 {
            scan_from(s, i + 1, 1, i)
        } else {
            scan_from(s, i + 1, depth + 1, start)
        }
    } else if s[i] == '}' {
        if depth == 1 {
            match envelope_of_text(s.subrange(start, i + 1)) {
                Some(ev) => Some(ev),
                None => scan_from(s, i + 1, 0, start),
            }
        } else if depth > 0 {
            scan_from(s, i + 1, depth - 1, start)
        } else {
            scan_from(s, i + 1, 0, start)
        }
    } else {
        scan_from(s, i + 1, depth, start)
    }
}

/// Second strategy: the first balanced-brace region of the text that is a
/// well-formed envelope.
pub open spec fn tier_embedded(s: Seq<char>) -> Option<EnvelopeRecordView> {
    scan_from(s, 0, 0, 0)
}

/// Index of the end of the line that starts at `i`: the next newline, or
/// the end of the text.
pub open spec fn line_end(s: Seq<char>, i: int) -> int
    decreases s.len() - i when 0 <= i <= s.len()
{
    if i >= s.len() {
        i
    } else if s[i] == '\n' {
        i
    } else {
        line_end(s, i + 1)
    }
}

proof fn lemma_line_end_bounds(s: Seq<char>, i: int)
    requires
        0 <= i <= s.len(),
    ensures
        i <= line_end(s, i) <= s.len(),
    decreases s.len() - i,
{
    if i < s.len() && s[i] != '\n' {
        lemma_line_end_bounds(s, i + 1);
    }
}

/// Third strategy from position `i` on: the first line whose trimmed text
/// begins with an opening brace and is a well-formed envelope.
pub open spec fn lines_from(s: Seq<char>, i: int) -> Option<EnvelopeRecordView>
    decreases s.len() - i when 0 <= i <= s.len() via lines_from_decreases
{
    let e = line_end(s, i);
    let t = trim_spec(s.subrange(i, e));
    let found: Option<EnvelopeRecordView> = if t.len() > 0 && t[0] == '{' {
        envelope_of_text(t)
    } else {
        None
    };
    match found {
        Some(ev) => Some(ev),
        None => if e >= s.len() {
            None
        } else {
            lines_from(s, e + 1)
        },
    }
}

#[via_fn]
proof fn lines_from_decreases(s: Seq<char>, i: int) {
    lemma_line_end_bounds(s, i);
}

/// Third strategy: line-by-line scan of the whole text.
pub open spec fn tier_lines(s: Seq<char>) -> Option<EnvelopeRecordView> {
    lines_from(s, 0)
}

/// Model of interpretation: plain-text mode returns the text unchanged;
/// structured mode tries the three strategies in order and otherwise fails,
/// preserving the raw text.
pub open spec fn interpret_spec(s: Seq<char>, expect_structured: bool) -> ParseOutcomeView {
    if !expect_structured {
        ParseOutcomeView::Text(s)
    } else {
        match tier_direct(s) {
            Some(ev) => ParseOutcomeView::Structured(ev),
            None => match tier_embedded(s) {
                Some(ev) => ParseOutcomeView::Structured(ev),
                None => match tier_lines(s) {
                    Some(ev) => ParseOutcomeView::Structured(ev),
                    None => ParseOutcomeView::Failure { raw: s, diagnostic: diagnostic_message() },
                },
            },
        }
    }
}

/// Second strategy, executed: scan for the first balanced-brace region that
/// is a well-formed envelope.
fn find_embedded_envelope(s: &str) -> (r: Option<GeminiJsonResponse>)
    ensures
        match tier_embedded(s@) {
            Some(ev) => r matches Some(e) && e@ == ev,
            None => r is None,
        },
{
    let n: usize = s.unicode_len();
    let mut i: usize = 0;
    let mut depth: usize = 0;
    let mut start: usize = 0;
    while i < n
        invariant
            n == s@.len(),
            0 <= i <= n,
            depth <= i,
            depth > 0 ==> start < i,
            tier_embedded(s@) == scan_from(s@, i as int, depth as int, start as int),
        decreases n - i,
    {
        let c = s.get_char(i);
        if c == '{' {
            if depth == 0 {
                start = i;
                depth = 1;
            } else {
                depth = depth + 1;
            }
        } else if c == '}' {
            if depth == 1 {
                let cand = s.substring_char(start, i + 1);
                match parse_envelope(cand) {
                    Some(e) => {
                        return Some(e);
                    },
                    None => {
                        depth = 0;
                    },
                }
            } else if depth > 0 {
                depth = depth - 1;
            }
        }
        i += 1;
    }
    None
}

/// Third strategy, executed: line-by-line scan.
fn find_line_envelope(s: &str) -> (r: Option<GeminiJsonResponse>)
    ensures
        match tier_lines(s@) {
            Some(ev) => r matches Some(e) && e@ == ev,
            None => r is None,
        },
{
    let n: usize = s.unicode_len();
    let mut i: usize = 0;
    loop
        invariant
            n == s@.len(),
            0 <= i <= n,
            tier_lines(s@) == lines_from(s@, i as int),
        decreases n - i,
    {
        let mut e: usize = i;
        while e < n && s.get_char(e) != '\n'
            invariant
                n == s@.len(),
                i <= e <= n,
                line_end(s@, i as int) == line_end(s@, e as int),
            decreases n - e,
        {
            e += 1;
        }
        let line = s.substring_char(i, e);
        let t = trim_str(line);
        if starts_with_lbrace(t.as_str()) {
            match parse_envelope(t.as_str()) {
                Some(env) => {
                    return Some(env);
                },
                None => {},
            }
        }
        if e >= n {
            return None;
        }
        i = e + 1;
    }
}

/// The first balanced-brace region of mixed text that parses as JSON at
/// all, regardless of its shape.
pub open spec fn extract_from(s: Seq<char>, i: int, depth: int, start: int) -> Option<Seq<char>>
    decreases s.len() - i when 0 <= i <= s.len()
{
    if i >= s.len() {
        None
    } else if s[i] == '{' {
        if depth == 0 {
            extract_from(s, i + 1, 1, i)
        } else {
            extract_from(s, i + 1, depth + 1, start)
        }
    } else if s[i] == '}' {
        if depth == 1 {
            if json_of(s.subrange(start, i + 1)) is Some {
                Some(s.subrange(start, i + 1))
            } else {
                extract_from(s, i + 1, 0, start)
            }
        } else if depth > 0 {
            extract_from(s, i + 1, depth - 1, start)
        } else {
            extract_from(s, i + 1, 0, start)
        }
    } else {
        extract_from(s, i + 1, depth, start)
    }
}

/// The first balanced-brace region of the text that parses as JSON.
pub open spec fn extract_json_spec(s: Seq<char>) -> Option<Seq<char>> {
    extract_from(s, 0, 0, 0)
}

/// Extract the first balanced-brace region of mixed text that parses as
/// JSON, if any.
pub fn extract_json_from_mixed_content(content: &str) -> (r: Option<String>)
    ensures
        match extract_json_spec(content@) {
            Some(t) => r matches Some(x) && x@ == t,
            None => r is None,
        },
{
    let n: usize = content.unicode_len();
    let mut i: usize = 0;
    let mut depth: usize = 0;
    let mut start: usize = 0;
    while i < n
        invariant
            n == content@.len(),
            0 <= i <= n,
            depth <= i,
            depth > 0 ==> start < i,
            extract_json_spec(content@) == extract_from(
                content@,
                i as int,
                depth as int,
                start as int,
            ),
        decreases n - i,
    {
        let c = content.get_char(i);
        if c == '{' {
            if depth == 0 {
                start = i;
                depth = 1;
            } else {
                depth = depth + 1;
            }
        } else if c == '}' {
            if depth == 1 {
                let cand = content.substring_char(start, i + 1);
                if json_parse(cand).is_some() {
                    return Some(cand.to_owned());
                }
                depth = 0;
            } else if depth > 0 {
                depth = depth - 1;
            }
        }
        i += 1;
    }
    None
}

/// Interpret captured output: in plain-text mode return it unchanged; in
/// structured mode try the three strategies in order, and otherwise report
/// a failure that preserves the raw text.
pub fn parse_gemini_output(raw_output: &str, expect_json: bool) -> (r: ParseResult)
    ensures
        r@ == interpret_spec(raw_output@, expect_json),
{
    if !expect_json {
        return ParseResult::TextFallback(raw_output.to_owned());
    }
    let trimmed = trim_str(raw_output);
    match parse_envelope(trimmed.as_str()) {
        Some(e) => {
            return ParseResult::JsonSuccess(e);
        },
        None => {},
    }
    match find_embedded_envelope(raw_output) {
        Some(e) => {
            return ParseResult::JsonSuccess(e);
        },
        None => {},
    }
    match find_line_envelope(raw_output) {
        Some(e) => {
            return ParseResult::JsonSuccess(e);
        },
        None => {},
    }
    ParseResult::ParseError {
        raw_output: raw_output.to_owned(),
        error: String::from_str("Failed to parse JSON from gemini CLI output"),
    }
}

/// A text that is one well-formed envelope once trimmed, interpreted in
/// structured mode, yields that envelope: its response text verbatim.
pub proof fn lemma_structured_envelope_verbatim(s: Seq<char>, ev: EnvelopeRecordView)
    requires
        envelope_of_text(trim_spec(s)) == Some(ev),
    ensures
        interpret_spec(s, true) == ParseOutcomeView::Structured(ev),
{
}

/// In plain-text mode, interpretation is the identity on the raw text.
pub proof fn lemma_plain_text_identity(s: Seq<char>)
    ensures
        interpret_spec(s, false) == ParseOutcomeView::Text(s),
{
}

/// When all three strategies fail, structured interpretation fails and the
/// original text is preserved unmodified beside the fixed diagnostic.
pub proof fn lemma_parse_failure_preserves_raw(s: Seq<char>)
    requires
        tier_direct(s) is None,
        tier_embedded(s) is None,
        tier_lines(s) is None,
    ensures
        interpret_spec(s, true) == (ParseOutcomeView::Failure {
            raw: s,
            diagnostic: diagnostic_message(),
        }),
{
}

} // verus!
