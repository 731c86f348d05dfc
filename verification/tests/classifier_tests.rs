use groka::classifier::{
    fields_from_lookups, JsonScalar,
    build_classifier_request, extract_json, parse_classifier_verdict, parse_effort, truncate_chars,
    verdict_from_fields, verdict_from_reply, AssistantReply, JudgeFields, JUDGE_SYSTEM, JUDGE_TOOL,
};
use groka::decimal::number_text_millionths;
use groka::effort::ReasoningEffort;

#[test]
fn parses_clean_json() {
    let v = parse_classifier_verdict(r#"{"effort":"high","confidence":0.9,"reason":"multi-file race"}"#).unwrap();
    assert_eq!(v.effort, ReasoningEffort::High);
    assert!((v.confidence as f32 / 1_000_000.0 - 0.9).abs() < f32::EPSILON);
    assert_eq!(v.reason, "multi-file race");
}

#[test]
fn parses_json_in_prose() {
    let v = parse_classifier_verdict(
        "sure {\"effort\":\"low\",\"confidence\":0.8,\"reason\":\"just a greeting\"} thanks",
    )
    .unwrap();
    assert_eq!(v.effort, ReasoningEffort::Low);
}

#[test]
fn rejects_bad_effort_token() {
    assert!(parse_classifier_verdict(r#"{"effort":"quantum","confidence":1}"#).is_none());
}

#[test]
fn rejects_empty() {
    assert!(parse_classifier_verdict("").is_none());
    assert!(parse_classifier_verdict("not json").is_none());
}

#[test]
fn maps_aliases_into_triad() {
    let v = parse_classifier_verdict(r#"{"effort":"xhigh","confidence":1,"reason":"x"}"#).unwrap();
    assert_eq!(v.effort, ReasoningEffort::High);
    let v = parse_classifier_verdict(r#"{"effort":"minimal","confidence":1,"reason":"x"}"#).unwrap();
    assert_eq!(v.effort, ReasoningEffort::Low);
}

#[test]
fn request_is_low_effort_on_passed_model() {
    let req = build_classifier_request("grok-4.6", "hi", None);
    assert_eq!(req.model.as_deref(), Some("grok-4.6"));
    assert_eq!(req.reasoning_effort, Some(ReasoningEffort::Low));
    assert_eq!(req.max_output_tokens, Some(64));
}

#[test]
fn request_wraps_trimmed_prompt_and_stage() {
    let req = build_classifier_request("m", "  hi there \n", Some("stage override"));
    assert_eq!(req.user, "<user_query>\nhi there\n</user_query>\n<stage>\nstage override\n</stage>");
    assert_eq!(req.system, JUDGE_SYSTEM);
    assert!(req.system.starts_with("You classify"));
    assert_eq!(req.tool_name, JUDGE_TOOL);
    assert_eq!(req.tool_choice, "route_effort");
    assert_eq!(req.temperature_milli, 0);
    let schema: serde_json::Value = serde_json::from_str(&req.tool_parameters).unwrap();
    assert_eq!(schema["required"][0], "effort");
}

#[test]
fn request_cuts_long_prompt() {
    let long = "x".repeat(2500);
    let req = build_classifier_request("m", &long, None);
    let expected = format!("<user_query>\n{}…\n</user_query>", "x".repeat(2000));
    assert_eq!(req.user, expected);
}

#[test]
fn truncate_chars_appends_ellipsis_only_when_cut() {
    assert_eq!(truncate_chars("héllo", 3), "hél…");
    assert_eq!(truncate_chars("héllo", 5), "héllo");
    assert_eq!(truncate_chars("", 0), "");
    assert_eq!(truncate_chars("a", 0), "…");
}

#[test]
fn parse_effort_trims_and_folds_case() {
    assert_eq!(parse_effort("  HIGH "), Some(ReasoningEffort::High));
    assert_eq!(parse_effort("None"), Some(ReasoningEffort::Low));
    assert_eq!(parse_effort("max"), Some(ReasoningEffort::High));
    assert_eq!(parse_effort("Medium"), Some(ReasoningEffort::Medium));
    assert_eq!(parse_effort("med"), None);
}

#[test]
fn confidence_defaults_and_clamps() {
    let v = parse_classifier_verdict(r#"{"effort":"low"}"#).unwrap();
    assert_eq!(v.confidence, 600_000);
    assert_eq!(v.reason, "");
    let v = parse_classifier_verdict(r#"{"effort":"low","confidence":"high"}"#).unwrap();
    assert_eq!(v.confidence, 600_000);
    let v = parse_classifier_verdict(r#"{"effort":"low","confidence":7}"#).unwrap();
    assert_eq!(v.confidence, 1_000_000);
    let v = parse_classifier_verdict(r#"{"effort":"low","confidence":-0.25}"#).unwrap();
    assert_eq!(v.confidence, 0);
    let v = parse_classifier_verdict(r#"{"effort":"low","confidence":2.5e-1}"#).unwrap();
    assert_eq!(v.confidence, 250_000);
}

#[test]
fn reason_is_trimmed_and_cut_to_80_chars() {
    let long = "r".repeat(100);
    let raw = format!("{{\"effort\":\"medium\",\"reason\":\"  {long}  \"}}");
    let v = parse_classifier_verdict(&raw).unwrap();
    assert_eq!(v.reason, "r".repeat(80));
    assert_eq!(v.effort, ReasoningEffort::Medium);
}

#[test]
fn non_object_json_has_no_verdict() {
    assert!(parse_classifier_verdict("[1,2,3]").is_none());
    assert!(parse_classifier_verdict("\"high\"").is_none());
    assert!(parse_classifier_verdict("} {").is_none());
}

#[test]
fn extract_json_reads_fields() {
    let f = extract_json("  x {\"effort\": 5, \"confidence\": 0.5, \"reason\": \"ok\"} y ").unwrap();
    assert_eq!(f.effort, None);
    assert_eq!(f.confidence.as_deref(), Some("0.5"));
    assert_eq!(f.reason.as_deref(), Some("ok"));
    assert!(extract_json("no braces").is_none());
}

#[test]
fn verdict_from_fields_reads_plain_values() {
    let f = JudgeFields {
        effort: Some(" Xhigh".to_string()),
        confidence: Some("0.123456789".to_string()),
        reason: None,
    };
    let v = verdict_from_fields(Some(f)).unwrap();
    assert_eq!(v.effort, ReasoningEffort::High);
    assert_eq!(v.confidence, 123_457);
    assert!(verdict_from_fields(None).is_none());
}

#[test]
fn reply_prefers_first_tool_call() {
    let reply = AssistantReply {
        tool_call_arguments: vec![
            r#"{"effort":"high","confidence":0.7}"#.to_string(),
            r#"{"effort":"low"}"#.to_string(),
        ],
        content: r#"{"effort":"medium"}"#.to_string(),
    };
    assert_eq!(verdict_from_reply(Some(&reply)).unwrap().effort, ReasoningEffort::High);
    let text_only = AssistantReply { tool_call_arguments: vec![], content: r#"{"effort":"medium"}"#.to_string() };
    assert_eq!(verdict_from_reply(Some(&text_only)).unwrap().effort, ReasoningEffort::Medium);
    assert!(verdict_from_reply(None).is_none());
}

#[test]
fn number_text_reads_decimal_grammar() {
    assert_eq!(number_text_millionths("0.9"), Some(900_000));
    assert_eq!(number_text_millionths("1"), Some(1_000_000));
    assert_eq!(number_text_millionths("0.0009"), Some(900));
    assert_eq!(number_text_millionths("1e-6"), Some(1));
    assert_eq!(number_text_millionths("1e-7"), Some(0));
    assert_eq!(number_text_millionths("9.99e-1"), Some(999_000));
    assert_eq!(number_text_millionths("5E-1"), Some(500_000));
    assert_eq!(number_text_millionths("0.5e+0"), Some(500_000));
    assert_eq!(number_text_millionths("1e300"), Some(1_000_000));
    assert_eq!(number_text_millionths("0.000000"), Some(0));
    assert_eq!(number_text_millionths("-0.0"), Some(0));
    assert_eq!(number_text_millionths("-3"), Some(0));
    assert_eq!(number_text_millionths("0.1234567"), Some(123_457));
    assert_eq!(number_text_millionths("0.1234564"), Some(123_456));
    assert_eq!(number_text_millionths("0.4999999999"), Some(500_000));
    assert_eq!(number_text_millionths("0.0000005"), Some(1));
    assert_eq!(number_text_millionths("0.00000049"), Some(0));
    assert_eq!(number_text_millionths("0.9999996"), Some(1_000_000));
    assert_eq!(number_text_millionths("00012.5e-5"), Some(125));
    assert_eq!(number_text_millionths("1e99999999999999999999999999"), Some(1_000_000));
    assert_eq!(number_text_millionths("1e-99999999999999999999999999"), Some(0));
    assert_eq!(number_text_millionths(""), None);
    assert_eq!(number_text_millionths("1."), None);
    assert_eq!(number_text_millionths(".5"), None);
    assert_eq!(number_text_millionths("1e"), None);
    assert_eq!(number_text_millionths("abc"), None);
}

#[test]
fn number_text_agrees_with_float_on_serde_output() {
    for x in [0.0f64, 0.25, 0.5, 0.75, 0.875, 1.0, 0.9, 0.91, 0.6, 1e-3, 2.0, 123.0] {
        let text = serde_json::Number::from_f64(x).unwrap().to_string();
        let expected = ((x.clamp(0.0, 1.0)) * 1_000_000.0).round() as i64;
        let got = number_text_millionths(&text).unwrap() as i64;
        assert_eq!(got, expected, "{text}");
    }
}

#[test]
fn payload_keys_are_exact() {
    assert!(parse_classifier_verdict(r#"{"Effort":"high"}"#).is_none());
    assert!(parse_classifier_verdict(r#"{"effort":["high"]}"#).is_none());
    let v = parse_classifier_verdict(r#"{"effort":"high","Confidence":0.1,"reasons":"x"}"#).unwrap();
    assert_eq!(v.confidence, 600_000);
    assert_eq!(v.reason, "");
}

#[test]
fn fields_from_lookup_results() {
    assert!(fields_from_lookups(None, None, None).is_none());
    let f = fields_from_lookups(
        Some(Some(JsonScalar::Str("low".to_string()))),
        Some(Some(JsonScalar::Str("0.5".to_string()))),
        Some(Some(JsonScalar::Other)),
    )
    .unwrap();
    assert_eq!(f.effort.as_deref(), Some("low"));
    assert_eq!(f.confidence, None);
    assert_eq!(f.reason, None);
    let f = fields_from_lookups(Some(None), Some(Some(JsonScalar::Number("1e-1".to_string()))), Some(None)).unwrap();
    assert_eq!(f.effort, None);
    assert_eq!(f.confidence.as_deref(), Some("1e-1"));
}
