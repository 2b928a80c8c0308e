use gemtts::json::JsonValue;
use gemtts::usage::{
    api_usage_from_response, estimate_text_tokens, estimate_tokens, normalize_tokens, recent_start,
    token_totals, usage_path, ApiUsageMetadata, TokenEstimate,
};

fn obj(entries: Vec<(&str, JsonValue)>) -> JsonValue {
    JsonValue::Object(entries.into_iter().map(|(k, v)| (k.to_string(), v)).collect())
}

#[test]
fn extracts_camel_case_usage_metadata() {
    let json = obj(vec![(
        "usageMetadata",
        obj(vec![
            ("promptTokenCount", JsonValue::Number(12)),
            ("candidatesTokenCount", JsonValue::Number(25)),
            ("totalTokenCount", JsonValue::Number(37)),
        ]),
    )]);
    let usage = api_usage_from_response(&json);
    assert_eq!(usage.prompt_token_count, Some(12));
    assert_eq!(usage.candidates_token_count, Some(25));
    assert_eq!(usage.total_token_count, Some(37));
}

#[test]
fn extracts_snake_case_usage_metadata() {
    let json = obj(vec![(
        "usage_metadata",
        obj(vec![
            ("prompt_token_count", JsonValue::Number(3)),
            ("candidatesTokenCount", JsonValue::Str("x".to_string())),
            ("candidates_token_count", JsonValue::Number(9)),
        ]),
    )]);
    let usage = api_usage_from_response(&json);
    assert_eq!(usage.prompt_token_count, Some(3));
    // A camel-case member that is not a count hides the snake-case one.
    assert_eq!(usage.candidates_token_count, None);
    assert_eq!(usage.total_token_count, None);
}

#[test]
fn missing_usage_metadata_gives_nothing() {
    let usage = api_usage_from_response(&obj(vec![("candidates", JsonValue::Array(vec![]))]));
    assert_eq!(usage.prompt_token_count, None);
    assert_eq!(usage.candidates_token_count, None);
    assert_eq!(usage.total_token_count, None);
}

#[test]
fn text_tokens_are_a_quarter_of_chars_rounded_up() {
    assert_eq!(estimate_text_tokens(40), 10);
    assert_eq!(estimate_text_tokens(41), 11);
    assert_eq!(estimate_text_tokens(0), 1);
    assert_eq!(estimate_text_tokens(1), 1);
}

#[test]
fn token_estimate_prefers_api_counts() {
    let none = ApiUsageMetadata::default();
    let e = estimate_tokens(25, 40, &none);
    assert_eq!(e.audio_output_tokens, 25);
    assert_eq!(e.audio_output_tokens_source, "estimated_from_pcm_duration");
    assert_eq!(e.input_tokens, 10);
    assert_eq!(e.input_tokens_source, "estimated_from_chars");
    assert_eq!(e.total_billable_tokens, 35);

    let api = ApiUsageMetadata {
        prompt_token_count: Some(3),
        candidates_token_count: Some(99),
        total_token_count: Some(102),
    };
    let e = estimate_tokens(25, 40, &api);
    assert_eq!(e.audio_output_tokens, 99);
    assert_eq!(e.audio_output_tokens_source, "api_usage_metadata");
    assert_eq!(e.input_tokens, 3);
    assert_eq!(e.input_tokens_source, "api_usage_metadata");
    assert_eq!(e.total_billable_tokens, 102);
}

#[test]
fn normalizes_older_token_counts_to_api_counts() {
    let api = ApiUsageMetadata {
        prompt_token_count: Some(3),
        candidates_token_count: Some(99),
        total_token_count: Some(102),
    };
    let mut e = estimate_tokens(25, 40, &ApiUsageMetadata::default());
    normalize_tokens(&mut e, &api);
    assert_eq!(e.input_tokens, 3);
    assert_eq!(e.audio_output_tokens, 99);
    assert_eq!(e.total_billable_tokens, 102);
    assert_eq!(e.input_tokens_source, "api_usage_metadata");
    normalize_tokens(&mut e, &api);
    assert_eq!(e.total_billable_tokens, 102);
}

#[test]
fn totals_add_up_records() {
    let a = TokenEstimate {
        input_tokens: 3,
        input_tokens_source: "api_usage_metadata".to_string(),
        audio_output_tokens: 99,
        audio_output_tokens_source: "api_usage_metadata".to_string(),
        total_billable_tokens: 102,
    };
    let b = estimate_tokens(25, 40, &ApiUsageMetadata::default());
    let t = token_totals(&vec![a, b]);
    assert_eq!(t.records, 2);
    assert_eq!(t.input_tokens, 13);
    assert_eq!(t.audio_output_tokens, 124);
    assert_eq!(t.total_billable_tokens, 137);
    assert_eq!(token_totals(&vec![]).records, 0);
}

#[test]
fn usage_ledger_path_and_recent_window() {
    assert_eq!(usage_path("/tmp/state"), "/tmp/state/usage.jsonl");
    assert_eq!(usage_path("/tmp/state/"), "/tmp/state/usage.jsonl");
    assert_eq!(recent_start(10, 3), 7);
    assert_eq!(recent_start(2, 5), 0);
}

#[test]
fn clock_readings_before_the_epoch_are_zero() {
    assert_eq!(gemtts::usage::seconds_or_zero(None), 0);
    assert_eq!(gemtts::usage::seconds_or_zero(Some(1_700_000_000)), 1_700_000_000);
    assert_eq!(gemtts::audio::millis_or_zero(None), 0);
    assert_eq!(gemtts::audio::millis_or_zero(Some(5)), 5);
}
