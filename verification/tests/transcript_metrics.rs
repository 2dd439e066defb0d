//! Pricing, cost and transcript metrics. Transcript lines are given as the
//! JSON text the transcript file holds; `parse_line` turns each into what the
//! program hands the library.

use starship_session::pricing::{ModelPricing, TokenUsage};
use starship_session::timestamp::Timestamp;
use starship_session::transcript::{
    count_messages, render_percentiles, response_time_percentiles, sum_cost_since,
    AssistantMessage, Line, TranscriptEntry,
};
use serde_json::Value;

fn timestamp(text: &str) -> Option<Timestamp> {
    let dt = text.parse::<chrono::DateTime<chrono::Utc>>().ok()?;
    Timestamp::from_parts(dt.timestamp(), dt.timestamp_subsec_nanos())
}

fn optional<'a>(obj: &'a serde_json::Map<String, Value>, key: &str) -> Option<&'a Value> {
    match obj.get(key) {
        None | Some(Value::Null) => None,
        Some(v) => Some(v),
    }
}

fn optional_u64(obj: &serde_json::Map<String, Value>, key: &str) -> Result<Option<u64>, ()> {
    match optional(obj, key) {
        None => Ok(None),
        Some(v) => v.as_u64().map(Some).ok_or(()),
    }
}

fn parse_entry(line: &str) -> Result<TranscriptEntry, ()> {
    let v: Value = serde_json::from_str(line).map_err(|_| ())?;
    let obj = v.as_object().ok_or(())?;
    let entry_type = obj.get("type").and_then(Value::as_str).ok_or(())?.to_string();
    let timestamp = match optional(obj, "timestamp") {
        None => None,
        Some(t) => Some(timestamp(t.as_str().ok_or(())?).ok_or(())?),
    };
    let message = match optional(obj, "message") {
        None => None,
        Some(m) => {
            let m = m.as_object().ok_or(())?;
            let model = match optional(m, "model") {
                None => None,
                Some(s) => Some(s.as_str().ok_or(())?.to_string()),
            };
            let usage = match optional(m, "usage") {
                None => None,
                Some(u) => {
                    let u = u.as_object().ok_or(())?;
                    Some(TokenUsage {
                        input_tokens: optional_u64(u, "input_tokens")?,
                        output_tokens: optional_u64(u, "output_tokens")?,
                        cache_creation_input_tokens: optional_u64(u, "cache_creation_input_tokens")?,
                        cache_read_input_tokens: optional_u64(u, "cache_read_input_tokens")?,
                    })
                },
            };
            Some(AssistantMessage { model, usage })
        },
    };
    Ok(TranscriptEntry { entry_type, timestamp, message })
}

fn parse_line(line: &str) -> Line {
    parse_entry(line).ok()
}

fn transcript(entries: &[&str]) -> Vec<Line> {
    entries.iter().map(|l| parse_line(l)).collect()
}

/// The percentiles line as the program prints it.
fn response_output(lines: &Vec<Line>) -> String {
    let p = response_time_percentiles(lines);
    if p.is_empty() {
        return String::new();
    }
    let secs: Vec<String> = p.iter().map(|ms| format!("{:.1}", *ms as f64 / 1000.0)).collect();
    render_percentiles(&secs)
}

fn dollars(microcents: u128) -> f64 {
    microcents as f64 / 100_000_000.0
}

fn price(cents_per_million: u32) -> f64 {
    f64::from(cents_per_million) / 100.0
}

#[test]
fn test_model_pricing_for_model_opus_4_5() {
    let pricing = ModelPricing::for_model("opus-4-5-20251101");
    assert!((price(pricing.input) - 5.0).abs() < 0.001);
    assert!((price(pricing.output) - 25.0).abs() < 0.001);
}

#[test]
fn test_model_pricing_for_model_sonnet_4() {
    let pricing = ModelPricing::for_model("sonnet-4-20250514");
    assert!((price(pricing.input) - 3.0).abs() < 0.001);
    assert!((price(pricing.output) - 15.0).abs() < 0.001);
}

#[test]
fn test_model_pricing_for_model_haiku() {
    let pricing = ModelPricing::for_model("haiku-4-5-20250101");
    assert!((price(pricing.input) - 1.0).abs() < 0.001);
    assert!((price(pricing.output) - 5.0).abs() < 0.001);
}

#[test]
fn test_model_pricing_for_model_sonnet_3_5() {
    let pricing = ModelPricing::for_model("sonnet-3-5-20241022");
    assert!((price(pricing.input) - 3.0).abs() < 0.001);
    assert!((price(pricing.output) - 15.0).abs() < 0.001);
}

#[test]
fn test_model_pricing_for_model_unknown_defaults_to_sonnet() {
    let pricing = ModelPricing::for_model("unknown-model");
    assert!((price(pricing.input) - 3.0).abs() < 0.001);
    assert!((price(pricing.output) - 15.0).abs() < 0.001);
}

#[test]
fn test_token_usage_cost_sonnet() {
    let usage = TokenUsage {
        input_tokens: Some(1_000_000),
        output_tokens: Some(1_000_000),
        cache_creation_input_tokens: None,
        cache_read_input_tokens: None,
    };
    // 1M input @ $3 + 1M output @ $15 = $18
    assert!((dollars(usage.cost(ModelPricing::sonnet_4())) - 18.0).abs() < 0.001);
}

#[test]
fn test_token_usage_cost_opus_4_5() {
    let usage = TokenUsage {
        input_tokens: Some(1_000_000),
        output_tokens: Some(1_000_000),
        cache_creation_input_tokens: None,
        cache_read_input_tokens: None,
    };
    // 1M input @ $5 + 1M output @ $25 = $30
    assert!((dollars(usage.cost(ModelPricing::opus_4_5())) - 30.0).abs() < 0.001);
}

#[test]
fn test_token_usage_cost_with_cache() {
    let usage = TokenUsage {
        input_tokens: Some(1_000_000),
        output_tokens: Some(1_000_000),
        cache_creation_input_tokens: Some(1_000_000),
        cache_read_input_tokens: Some(1_000_000),
    };
    // Sonnet: 1M @ $3 + 1M @ $15 + 1M @ $3.75 + 1M @ $0.30 = $22.05
    assert!((dollars(usage.cost(ModelPricing::sonnet_4())) - 22.05).abs() < 0.001);
}

#[test]
fn test_token_usage_cost_empty() {
    let usage = TokenUsage {
        input_tokens: None,
        output_tokens: None,
        cache_creation_input_tokens: None,
        cache_read_input_tokens: None,
    };
    assert!((dollars(usage.cost(ModelPricing::sonnet_4())) - 0.0).abs() < 0.001);
}

#[test]
fn test_count_messages_basic() {
    let lines = transcript(&[
        r#"{"type": "user", "timestamp": "2026-01-30T10:00:00Z"}"#,
        r#"{"type": "assistant", "timestamp": "2026-01-30T10:00:05Z"}"#,
        r#"{"type": "user", "timestamp": "2026-01-30T10:00:10Z"}"#,
        r#"{"type": "assistant", "timestamp": "2026-01-30T10:00:15Z"}"#,
    ]);
    let count = count_messages(&lines);
    assert_eq!(count, 4);
}

#[test]
fn test_count_messages_filters_other_types() {
    let lines = transcript(&[
        r#"{"type": "user", "timestamp": "2026-01-30T10:00:00Z"}"#,
        r#"{"type": "progress", "timestamp": "2026-01-30T10:00:02Z"}"#,
        r#"{"type": "assistant", "timestamp": "2026-01-30T10:00:05Z"}"#,
        r#"{"type": "file-history-snapshot"}"#,
    ]);
    let count = count_messages(&lines);
    assert_eq!(count, 2);
}

#[test]
fn test_count_messages_empty_file() {
    let lines = transcript(&[]);
    let count = count_messages(&lines);
    assert_eq!(count, 0);
}

#[test]
fn test_response_time_percentiles_basic() {
    let lines = transcript(&[
        r#"{"type": "user", "timestamp": "2026-01-30T10:00:00Z"}"#,
        r#"{"type": "assistant", "timestamp": "2026-01-30T10:00:05Z"}"#,
        r#"{"type": "user", "timestamp": "2026-01-30T10:00:10Z"}"#,
        r#"{"type": "assistant", "timestamp": "2026-01-30T10:00:13Z"}"#,
    ]);
    // Two responses: 5s and 3s, p50 = 3s (sorted: [3, 5], median is first half)
    let output = response_output(&lines);
    assert_eq!(output, "\x1b[32m3.0s\x1b[0m");
}

#[test]
fn test_response_time_percentiles_no_pairs() {
    let lines = transcript(&[r#"{"type": "user", "timestamp": "2026-01-30T10:00:00Z"}"#]);
    let result = response_output(&lines);
    assert!(result.is_empty());
}

#[test]
fn test_response_time_percentiles_ignores_orphaned_assistant() {
    let lines = transcript(&[
        r#"{"type": "assistant", "timestamp": "2026-01-30T10:00:00Z"}"#,
        r#"{"type": "user", "timestamp": "2026-01-30T10:00:05Z"}"#,
        r#"{"type": "assistant", "timestamp": "2026-01-30T10:00:10Z"}"#,
    ]);
    // Only the second pair counts: 5 seconds
    let output = response_output(&lines);
    assert_eq!(output, "\x1b[32m5.0s\x1b[0m");
}

#[test]
fn test_response_time_percentiles_shows_p90_with_10_responses() {
    // Generate 10 user/assistant pairs with varying response times
    let mut entries = Vec::new();
    for i in 0..10 {
        let user_time = format!("2026-01-30T10:{i:02}:00Z");
        let assistant_time = format!("2026-01-30T10:{:02}:{:02}Z", i, (i + 1) % 60);
        entries.push(format!(r#"{{"type": "user", "timestamp": "{user_time}"}}"#));
        entries.push(format!(r#"{{"type": "assistant", "timestamp": "{assistant_time}"}}"#));
    }
    let entries_ref: Vec<&str> = entries.iter().map(std::string::String::as_str).collect();
    let lines = transcript(&entries_ref);
    let output = response_output(&lines);
    // Should show p50/p90 format with colors (green/yellow)
    assert!(output.contains('/'), "Expected p50/p90 format, got: {output}");
    assert!(
        output.contains("\x1b[32m") && output.contains("\x1b[33m"),
        "Expected green and yellow ANSI codes"
    );
}

#[test]
fn test_sum_cost_since_with_sonnet_model() {
    let lines = transcript(&[
        r#"{"type": "assistant", "timestamp": "2026-01-30T10:00:00Z", "message": {"model": "sonnet-4-20250514", "usage": {"input_tokens": 1000, "output_tokens": 100}}}"#,
        r#"{"type": "assistant", "timestamp": "2026-01-30T10:00:05Z", "message": {"model": "sonnet-4-20250514", "usage": {"input_tokens": 2000, "output_tokens": 200}}}"#,
    ]);
    let cutoff = timestamp("2026-01-30T00:00:00Z").unwrap();
    let cost = dollars(sum_cost_since(&lines, &cutoff));
    // Sonnet: (1000 + 2000) * 3 / 1M + (100 + 200) * 15 / 1M = 0.009 + 0.0045 = 0.0135
    assert!((cost - 0.0135).abs() < 0.0001);
}

#[test]
fn test_sum_cost_since_with_opus_model() {
    let lines = transcript(&[
        r#"{"type": "assistant", "timestamp": "2026-01-30T10:00:00Z", "message": {"model": "opus-4-5-20251101", "usage": {"input_tokens": 1000000, "output_tokens": 0}}}"#,
    ]);
    let cutoff = timestamp("2026-01-30T00:00:00Z").unwrap();
    let cost = dollars(sum_cost_since(&lines, &cutoff));
    // Opus 4.5: 1M * $5 / 1M = $5
    assert!((cost - 5.0).abs() < 0.001);
}

#[test]
fn test_sum_cost_since_filters_by_cutoff() {
    let lines = transcript(&[
        r#"{"type": "assistant", "timestamp": "2026-01-30T08:00:00Z", "message": {"model": "sonnet-4", "usage": {"input_tokens": 1000000, "output_tokens": 0}}}"#,
        r#"{"type": "assistant", "timestamp": "2026-01-30T12:00:00Z", "message": {"model": "sonnet-4", "usage": {"input_tokens": 1000000, "output_tokens": 0}}}"#,
    ]);
    let cutoff = timestamp("2026-01-30T10:00:00Z").unwrap();
    let cost = dollars(sum_cost_since(&lines, &cutoff));
    // Only second entry counts: 1M * $3 / 1M = $3
    assert!((cost - 3.0).abs() < 0.001);
}

#[test]
fn test_sum_cost_since_ignores_non_assistant() {
    let lines = transcript(&[
        r#"{"type": "user", "timestamp": "2026-01-30T10:00:00Z"}"#,
        r#"{"type": "assistant", "timestamp": "2026-01-30T10:00:05Z", "message": {"model": "sonnet-4", "usage": {"input_tokens": 1000000, "output_tokens": 0}}}"#,
    ]);
    let cutoff = timestamp("2026-01-30T00:00:00Z").unwrap();
    let cost = dollars(sum_cost_since(&lines, &cutoff));
    assert!((cost - 3.0).abs() < 0.001);
}

#[test]
fn test_sum_cost_since_handles_missing_usage() {
    let lines = transcript(&[
        r#"{"type": "assistant", "timestamp": "2026-01-30T10:00:00Z", "message": {}}"#,
        r#"{"type": "assistant", "timestamp": "2026-01-30T10:00:05Z", "message": {"model": "sonnet-4", "usage": {"input_tokens": 1000000, "output_tokens": 0}}}"#,
    ]);
    let cutoff = timestamp("2026-01-30T00:00:00Z").unwrap();
    let cost = dollars(sum_cost_since(&lines, &cutoff));
    assert!((cost - 3.0).abs() < 0.001);
}

#[test]
fn test_sum_cost_since_mixed_models() {
    let lines = transcript(&[
        r#"{"type": "assistant", "timestamp": "2026-01-30T10:00:00Z", "message": {"model": "sonnet-4", "usage": {"input_tokens": 1000000, "output_tokens": 0}}}"#,
        r#"{"type": "assistant", "timestamp": "2026-01-30T10:00:05Z", "message": {"model": "opus-4-5", "usage": {"input_tokens": 1000000, "output_tokens": 0}}}"#,
    ]);
    let cutoff = timestamp("2026-01-30T00:00:00Z").unwrap();
    let cost = dollars(sum_cost_since(&lines, &cutoff));
    // Sonnet: 1M * $3 = $3, Opus 4.5: 1M * $5 = $5, Total: $8
    assert!((cost - 8.0).abs() < 0.001);
}
