//! Fail-open LLM judge: the request it is sent (structured JSON, low effort) and
//! the reading of its reply.
//!
//! The judge is only consulted when the hybrid cascade is ambiguous. Timeout,
//! parse failure, or a missing client all fall back to the heuristic leaf.

use vstd::prelude::*;
use crate::decimal::{number_millionths, number_text_millionths};
use crate::effort::ReasoningEffort;
use crate::router::ClassifierVerdict;
use crate::text::{chars_of, equals_exec, lower, lower_chars, string_of, trim, trim_chars};

verus! {

/// The judge's instructions.
pub const JUDGE_SYSTEM: &'static str = "\
You classify how much reasoning effort a coding-agent turn needs.
Reply only via the route_effort tool.
low = greeting, thanks, trivial yes/no, or a one-line follow-up that needs no planning.
medium = ordinary explanation, small edit, or a well-specified implementation.
high = debug, architecture, multi-file design, races, security, or an underspecified hard task.
Use the prompt meaning, not keyword matching. Prefer medium when unsure.";

/// Name of the one tool the judge must call.
pub const JUDGE_TOOL: &'static str = "route_effort";

/// Description of the judge's tool.
pub const JUDGE_TOOL_DESCRIPTION: &'static str = "Pick the reasoning effort for this turn";

/// JSON schema of the judge tool's arguments.
pub const JUDGE_TOOL_PARAMETERS: &'static str = "{\"type\":\"object\",\"required\":[\"effort\",\"confidence\",\"reason\"],\"properties\":{\"effort\":{\"type\":\"string\",\"enum\":[\"low\",\"medium\",\"high\"]},\"confidence\":{\"type\":\"number\",\"minimum\":0.0,\"maximum\":1.0},\"reason\":{\"type\":\"string\",\"description\":\"At most 12 words\"}},\"additionalProperties\":false}";

/// Longest prompt (in chars) the judge is shown.
pub const JUDGE_PROMPT_CHARS: usize = 2000;

/// A judge request: conversation, forced tool call and sampling settings.
#[derive(Clone, Debug)]
pub struct ClassifierRequest {
    pub model: Option<String>,
    pub system: String,
    pub user: String,
    pub tool_name: String,
    pub tool_description: String,
    /// JSON schema text.
    pub tool_parameters: String,
    /// The function the judge is forced to call.
    pub tool_choice: String,
    pub max_output_tokens: Option<u32>,
    /// Sampling temperature in thousandths.
    pub temperature_milli: u32,
    pub reasoning_effort: Option<ReasoningEffort>,
}

/// `s` cut to its first `max` chars, with `…` appended when something was cut.
pub open spec fn truncated(s: Seq<char>, max: nat) -> Seq<char> {
    if s.len() > max {
        s.take(max as int).push('…')
    } else {
        s
    }
}

/// At most `max` chars of `s`, then `…` when `s` was longer.
pub fn truncate_chars(s: &str, max: usize) -> (r: String)
    ensures
        r@ == truncated(s@, max as nat),
{
    let v = chars_of(s);
    let mut out: Vec<char> = Vec::new();
    let mut i: usize = 0;
    while i < v.len() && i < max
        invariant
            i <= v.len(),
            i <= max,
            out@ == v@.take(i as int),
        decreases v.len() - i,
    {
        out.push(v[i]);
        assert(v@.take(i + 1) =~= v@.take(i as int).push(v@[i as int]));
        i = i + 1;
    }
    if i < v.len() {
        out.push('…');
    } else {
        assert(v@.take(i as int) =~= v@);
    }
    string_of(&out)
}

/// The user turn the judge reads: the trimmed prompt (cut to
/// [`JUDGE_PROMPT_CHARS`]) in `<user_query>` tags, then the stage summary in
/// `<stage>` tags when there is one.
pub open spec fn judge_user_text(prompt: Seq<char>, stage: Option<Seq<char>>) -> Seq<char> {
    let q = "<user_query>\n"@ + truncated(trim(prompt), 2000) + "\n</user_query>"@;
    match stage {
        Some(st) => q + "\n<stage>\n"@ + st + "\n</stage>"@,
        None => q,
    }
}

/// Build the judge request on `model` at low effort, temperature zero, at most
/// 64 output tokens, with the `route_effort` tool forced.
pub fn build_classifier_request(model: &str, prompt: &str, stage_summary: Option<&str>) -> (req: ClassifierRequest)
    ensures
        req.model is Some && req.model->0@ == model@,
        req.system@ == JUDGE_SYSTEM@,
        req.user@ == judge_user_text(prompt@, match stage_summary { Some(s) => Some(s@), None => None }),
        req.tool_name@ == JUDGE_TOOL@,
        req.tool_description@ == JUDGE_TOOL_DESCRIPTION@,
        req.tool_parameters@ == JUDGE_TOOL_PARAMETERS@,
        req.tool_choice@ == JUDGE_TOOL@,
        req.max_output_tokens == Some(64u32),
        req.temperature_milli == 0,
        req.reasoning_effort == Some(ReasoningEffort::Low),
{
    let pv = chars_of(prompt);
    let tv = trim_chars(&pv);
    let trimmed = string_of(&tv);
    let cut = truncate_chars(trimmed.as_str(), JUDGE_PROMPT_CHARS);
    let mut user = String::from_str("<user_query>\n");
    user.append(cut.as_str());
    user.append("\n</user_query>");
    if let Some(stage) = stage_summary {
        user.append("\n<stage>\n");
        user.append(stage);
        user.append("\n</stage>");
    }
    ClassifierRequest {
        model: Some(String::from_str(model)),
        system: String::from_str(JUDGE_SYSTEM),
        user,
        tool_name: String::from_str(JUDGE_TOOL),
        tool_description: String::from_str(JUDGE_TOOL_DESCRIPTION),
        tool_parameters: String::from_str(JUDGE_TOOL_PARAMETERS),
        tool_choice: String::from_str(JUDGE_TOOL),
        max_output_tokens: Some(64),
        temperature_milli: 0,
        reasoning_effort: Some(ReasoningEffort::Low),
    }
}

/// The fields of a judge payload that the verdict reads: the strings under
/// [`EFFORT_KEY`] and [`REASON_KEY`] and the number (as its decimal text) under
/// [`CONFIDENCE_KEY`], each `None` when absent or of another kind.
#[derive(Clone, Debug)]
pub struct JudgeFields {
    pub effort: Option<String>,
    pub confidence: Option<String>,
    pub reason: Option<String>,
}

/// Judge payload fields as values.
pub struct JudgeFieldsView {
    pub effort: Option<Seq<char>>,
    pub confidence: Option<Seq<char>>,
    pub reason: Option<Seq<char>>,
}

/// An optional string as values.
pub open spec fn opt_string(s: Option<String>) -> Option<Seq<char>> {
    match s {
        Some(x) => Some(x@),
        None => None,
    }
}

/// Optional payload fields as values.
pub open spec fn fields_view(f: Option<JudgeFields>) -> Option<JudgeFieldsView> {
    match f {
        Some(f) => Some(
            JudgeFieldsView {
                effort: opt_string(f.effort),
                confidence: opt_string(f.confidence),
                reason: opt_string(f.reason),
            },
        ),
        None => None,
    }
}

/// What a JSON object holds under a key: a string, a number (as its decimal
/// text), or a value of another kind.
#[derive(Clone, Debug, PartialEq, Eq)]
pub enum JsonScalar {
    Str(String),
    Number(String),
    Other,
}

/// A JSON scalar as values.
pub enum JsonScalarView {
    Str(Seq<char>),
    Number(Seq<char>),
    Other,
}

impl View for JsonScalar {
    type V = JsonScalarView;

    open spec fn view(&self) -> JsonScalarView {
        match self {
            JsonScalar::Str(s) => JsonScalarView::Str(s@),
            JsonScalar::Number(t) => JsonScalarView::Number(t@),
            JsonScalar::Other => JsonScalarView::Other,
        }
    }
}

/// A key lookup as values.
pub open spec fn lookup_view(r: Option<Option<JsonScalar>>) -> Option<Option<JsonScalarView>> {
    match r {
        Some(Some(v)) => Some(Some(v@)),
        Some(None) => Some(None),
        None => None,
    }
}

/// The name for what `serde_json` finds in `text` under `key`: `None` when the
/// text is not JSON, `Some(None)` when it denotes no object holding `key`, else
/// the kind and contents of the value held there.
pub uninterp spec fn json_field_of(text: Seq<char>, key: Seq<char>) -> Option<Option<JsonScalarView>>;

/// `serde_json::from_str::<serde_json::Value>` on `text`, then `Value::get(key)`,
/// the value found told apart by kind (a `Number` as its `Display` text).
/// Claimed: the result is a function of `text` and `key` alone.
#[verifier::external_body]
fn json_field(text: &str, key: &str) -> (r: Option<Option<JsonScalar>>)
    ensures
        lookup_view(r) == json_field_of(text@, key@),
{
    let value: serde_json::Value = serde_json::from_str(text).ok()?;
    Some(match value.get(key) {
        Some(serde_json::Value::String(s)) => Some(JsonScalar::Str(s.clone())),
        Some(serde_json::Value::Number(n)) => Some(JsonScalar::Number(n.to_string())),
        Some(_) => Some(JsonScalar::Other),
        None => None,
    })
}

/// The key of the judge's effort token.
pub const EFFORT_KEY: &'static str = "effort";

/// The key of the judge's confidence.
pub const CONFIDENCE_KEY: &'static str = "confidence";

/// The key of the judge's reason.
pub const REASON_KEY: &'static str = "reason";

/// The string a lookup found, if it found one.
pub open spec fn found_str(o: Option<Option<JsonScalarView>>) -> Option<Seq<char>> {
    match o {
        Some(Some(JsonScalarView::Str(s))) => Some(s),
        _ => None,
    }
}

/// The number text a lookup found, if it found one.
pub open spec fn found_number(o: Option<Option<JsonScalarView>>) -> Option<Seq<char>> {
    match o {
        Some(Some(JsonScalarView::Number(t))) => Some(t),
        _ => None,
    }
}

/// Payload fields from the three key lookups: none when the effort lookup says
/// the text is not JSON; else the effort and reason strings and the confidence
/// number text that were found.
pub open spec fn payload_of(
    effort: Option<Option<JsonScalarView>>,
    confidence: Option<Option<JsonScalarView>>,
    reason: Option<Option<JsonScalarView>>,
) -> Option<JudgeFieldsView> {
    if effort is None {
        None
    } else {
        Some(
            JudgeFieldsView {
                effort: found_str(effort),
                confidence: found_number(confidence),
                reason: found_str(reason),
            },
        )
    }
}

/// The payload fields of a JSON text: what it holds under [`EFFORT_KEY`],
/// [`CONFIDENCE_KEY`] and [`REASON_KEY`]; `None` when it is not JSON.
pub open spec fn payload_fields(text: Seq<char>) -> Option<JudgeFieldsView> {
    payload_of(
        json_field_of(text, EFFORT_KEY@),
        json_field_of(text, CONFIDENCE_KEY@),
        json_field_of(text, REASON_KEY@),
    )
}

fn found_string(o: &Option<Option<JsonScalar>>) -> (r: Option<String>)
    ensures
        opt_string(r) == found_str(lookup_view(*o)),
{
    match o {
        Some(Some(JsonScalar::Str(s))) => Some(s.clone()),
        _ => None,
    }
}

/// Payload fields from the results of the three key lookups.
pub fn fields_from_lookups(
    effort: Option<Option<JsonScalar>>,
    confidence: Option<Option<JsonScalar>>,
    reason: Option<Option<JsonScalar>>,
) -> (r: Option<JudgeFields>)
    ensures
        fields_view(r) == payload_of(lookup_view(effort), lookup_view(confidence), lookup_view(reason)),
{
    if effort.is_none() {
        return None;
    }
    let number = match &confidence {
        Some(Some(JsonScalar::Number(t))) => Some(t.clone()),
        _ => None,
    };
    Some(JudgeFields { effort: found_string(&effort), confidence: number, reason: found_string(&reason) })
}

/// The payload fields of a JSON text (see [`payload_fields`]).
fn fields_of_text(text: &str) -> (r: Option<JudgeFields>)
    ensures
        fields_view(r) == payload_fields(text@),
{
    let e = json_field(text, EFFORT_KEY);
    let c = json_field(text, CONFIDENCE_KEY);
    let r = json_field(text, REASON_KEY);
    fields_from_lookups(e, c, r)
}

/// The payload fields of a judge reply: the whole trimmed text when it is JSON,
/// else the span from its first `{` to its last `}` when that span is JSON.
pub open spec fn extracted(raw: Seq<char>) -> Option<JudgeFieldsView> {
    let t = trim(raw);
    if payload_fields(t) is Some {
        payload_fields(t)
    } else if t.contains('{') && t.contains('}') {
        let a = t.index_of_first('{')->0;
        let b = t.index_of_last('}')->0;
        if b <= a {
            None
        } else {
            payload_fields(t.subrange(a, b + 1))
        }
    } else {
        None
    }
}

/// Index of the first `c` in `v`, if any.
fn first_index(v: &Vec<char>, c: char) -> (r: Option<usize>)
    ensures
        match r {
            Some(i) => i < v.len() && v@.contains(c) && v@.index_of_first(c) == Some(i as int),
            None => !v@.contains(c),
        },
{
    let mut i: usize = 0;
    while i < v.len()
        invariant
            i <= v.len(),
            forall|j: int| 0 <= j < i ==> v@[j] != c,
        decreases v.len() - i,
    {
        if v[i] == c {
            proof {
                v@.index_of_first_ensures(c);
            }
            return Some(i);
        }
        i = i + 1;
    }
    None
}

/// Index of the last `c` in `v`, if any.
fn last_index(v: &Vec<char>, c: char) -> (r: Option<usize>)
    ensures
        match r {
            Some(i) => i < v.len() && v@.contains(c) && v@.index_of_last(c) == Some(i as int),
            None => !v@.contains(c),
        },
{
    let mut i: usize = v.len();
    while i > 0
        invariant
            i <= v.len(),
            forall|j: int| i <= j < v.len() ==> v@[j] != c,
        decreases i,
    {
        if v[i - 1] == c {
            proof {
                v@.index_of_last_ensures(c);
            }
            return Some(i - 1);
        }
        i = i - 1;
    }
    None
}

/// The chars `v[lo..hi]` as a `String`.
fn substring(v: &Vec<char>, lo: usize, hi: usize) -> (s: String)
    requires
        lo <= hi <= v.len(),
    ensures
        s@ == v@.subrange(lo as int, hi as int),
{
    let mut r: Vec<char> = Vec::new();
    let mut i: usize = lo;
    while i < hi
        invariant
            lo <= i <= hi <= v.len(),
            r@ == v@.subrange(lo as int, i as int),
        decreases hi - i,
    {
        r.push(v[i]);
        assert(v@.subrange(lo as int, i + 1) =~= v@.subrange(lo as int, i as int).push(v@[i as int]));
        i = i + 1;
    }
    string_of(&r)
}

/// The payload fields of a judge reply (see [`extracted`]).
pub fn extract_json(raw: &str) -> (r: Option<JudgeFields>)
    ensures
        fields_view(r) == extracted(raw@),
{
    let rv = chars_of(raw);
    let tv = trim_chars(&rv);
    let trimmed = string_of(&tv);
    let whole = fields_of_text(trimmed.as_str());
    if whole.is_some() {
        return whole;
    }
    let start = match first_index(&tv, '{') {
        Some(i) => i,
        None => return None,
    };
    let end = match last_index(&tv, '}') {
        Some(i) => i,
        None => return None,
    };
    if end <= start {
        return None;
    }
    let span = substring(&tv, start, end + 1);
    fields_of_text(span.as_str())
}

/// The triad level an effort token names (trimmed, any ASCII case):
/// low/minimal/none → low, medium → medium, high/xhigh/max → high.
pub open spec fn effort_of_token(s: Seq<char>) -> Option<ReasoningEffort> {
    let t = lower(trim(s));
    if t == "low"@ || t == "minimal"@ || t == "none"@ {
        Some(ReasoningEffort::Low)
    } else if t == "medium"@ {
        Some(ReasoningEffort::Medium)
    } else if t == "high"@ || t == "xhigh"@ || t == "max"@ {
        Some(ReasoningEffort::High)
    } else {
        None
    }
}

fn is_token(t: &Vec<char>, lit: &str) -> (b: bool)
    ensures
        b == (t@ == lit@),
{
    let l = chars_of(lit);
    equals_exec(t, &l)
}

/// Read an effort token into the triad.
pub fn parse_effort(s: &str) -> (r: Option<ReasoningEffort>)
    ensures
        r == effort_of_token(s@),
{
    let v = chars_of(s);
    let tv = trim_chars(&v);
    let t = lower_chars(&tv);
    if is_token(&t, "low") || is_token(&t, "minimal") || is_token(&t, "none") {
        Some(ReasoningEffort::Low)
    } else if is_token(&t, "medium") {
        Some(ReasoningEffort::Medium)
    } else if is_token(&t, "high") || is_token(&t, "xhigh") || is_token(&t, "max") {
        Some(ReasoningEffort::High)
    } else {
        None
    }
}

/// Confidence of a payload, in millionths: its number clamped to `0..=1`, or 0.6
/// when the payload has no number.
pub open spec fn confidence_of(c: Option<Seq<char>>) -> u32 {
    match c {
        Some(t) => match number_millionths(t) {
            Some(v) => v as u32,
            None => 600_000,
        },
        None => 600_000,
    }
}

/// Reason of a payload: its trimmed text cut to 80 chars (empty when absent).
pub open spec fn reason_of(r: Option<Seq<char>>) -> Seq<char> {
    let t = trim(
        match r {
            Some(x) => x,
            None => Seq::empty(),
        },
    );
    if t.len() > 80 {
        t.take(80)
    } else {
        t
    }
}

/// The verdict a payload carries: none without a readable effort token.
pub open spec fn verdict_of(f: Option<JudgeFieldsView>) -> Option<(ReasoningEffort, u32, Seq<char>)> {
    match f {
        Some(f) => match f.effort {
            Some(e) => match effort_of_token(e) {
                Some(level) => Some((level, confidence_of(f.confidence), reason_of(f.reason))),
                None => None,
            },
            None => None,
        },
        None => None,
    }
}

/// The verdict carried by payload fields.
pub fn verdict_from_fields(fields: Option<JudgeFields>) -> (r: Option<ClassifierVerdict>)
    ensures
        crate::router::verdict_view(r) == verdict_of(fields_view(fields)),
{
    let f = match fields {
        Some(f) => f,
        None => return None,
    };
    let effort = match &f.effort {
        Some(e) => match parse_effort(e.as_str()) {
            Some(level) => level,
            None => return None,
        },
        None => return None,
    };
    let confidence: u32 = match &f.confidence {
        Some(t) => match number_text_millionths(t.as_str()) {
            Some(v) => v,
            None => 600_000,
        },
        None => 600_000,
    };
    let reason = match &f.reason {
        Some(r) => {
            let v = chars_of(r.as_str());
            let t = trim_chars(&v);
            let n: usize = if t.len() > 80 {
                80
            } else {
                t.len()
            };
            let s = substring(&t, 0, n);
            assert(t@.subrange(0, n as int) =~= t@.take(n as int));
            assert(n == t.len() ==> t@.take(n as int) =~= t@);
            s
        },
        None => {
            proof {
                assert(trim(Seq::<char>::empty()) =~= Seq::<char>::empty());
            }
            String::new()
        },
    };
    Some(ClassifierVerdict { effort, confidence, reason })
}

/// Parse a judge payload from tool-call arguments or raw assistant text.
pub fn parse_classifier_verdict(raw: &str) -> (r: Option<ClassifierVerdict>)
    ensures
        crate::router::verdict_view(r) == verdict_of(extracted(raw@)),
{
    verdict_from_fields(extract_json(raw))
}

/// What the judge's assistant message held.
#[derive(Clone, Debug)]
pub struct AssistantReply {
    /// Arguments of each tool call, in order.
    pub tool_call_arguments: Vec<String>,
    pub content: String,
}

/// The verdict of a judge reply: from the first tool call's arguments when the
/// assistant called a tool, else from its text; none without an assistant message.
pub open spec fn reply_verdict(args: Option<Seq<Seq<char>>>, content: Seq<char>) -> Option<(ReasoningEffort, u32, Seq<char>)> {
    match args {
        Some(a) => if a.len() > 0 {
            verdict_of(extracted(a[0]))
        } else {
            verdict_of(extracted(content))
        },
        None => None,
    }
}

/// The verdict in a judge reply (`None` when there was no assistant message).
pub fn verdict_from_reply(reply: Option<&AssistantReply>) -> (r: Option<ClassifierVerdict>)
    ensures
        crate::router::verdict_view(r) == match reply {
            Some(a) => reply_verdict(Some(a.tool_call_arguments@.map_values(|s: String| s@)), a.content@),
            None => None::<(ReasoningEffort, u32, Seq<char>)>,
        },
{
    match reply {
        Some(a) => {
            if a.tool_call_arguments.len() > 0 {
                parse_classifier_verdict(a.tool_call_arguments[0].as_str())
            } else {
                parse_classifier_verdict(a.content.as_str())
            }
        },
        None => None,
    }
}

} // verus!
