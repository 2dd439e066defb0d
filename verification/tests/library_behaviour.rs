//! Further behaviour of the library: metric texts, time arithmetic, pricing
//! order, and concrete instances of the laws the library proves.

use starship_session::hook::{ContextWindow, Cost, HookData, Model, HOOK_FILE_PATH};
use starship_session::metric::{plan_metric, seconds_of_millis, transcript_metric, Metric, MetricAction};
use starship_session::pricing::{ModelPricing, TokenUsage};
use starship_session::timestamp::{
    billing_window_start, is_at_or_after, start_of_day, Timestamp, MAX_SECS, MIN_SECS,
};
use starship_session::transcript::{
    collect_response_times, count_messages, render_percentiles, response_time_percentiles,
    sum_cost_since, AssistantMessage, Line, TranscriptEntry,
};

fn ts(text: &str) -> Timestamp {
    let dt = text.parse::<chrono::DateTime<chrono::Utc>>().unwrap();
    Timestamp::from_parts(dt.timestamp(), dt.timestamp_subsec_nanos()).unwrap()
}

fn entry(kind: &str, at: Option<&str>) -> Line {
    Some(TranscriptEntry { entry_type: kind.to_string(), timestamp: at.map(ts), message: None })
}

fn assistant_with_usage(at: &str, model: Option<&str>, input: u64, output: u64) -> Line {
    Some(TranscriptEntry {
        entry_type: "assistant".to_string(),
        timestamp: Some(ts(at)),
        message: Some(AssistantMessage {
            model: model.map(str::to_string),
            usage: Some(TokenUsage {
                input_tokens: Some(input),
                output_tokens: Some(output),
                cache_creation_input_tokens: None,
                cache_read_input_tokens: None,
            }),
        }),
    })
}

fn hook() -> HookData {
    HookData {
        hook_event_name: Some("Status".to_string()),
        session_id: "abc".to_string(),
        transcript_path: Some("/tmp/transcript.jsonl".to_string()),
        cwd: None,
        model: Model { id: "opus-4-1".to_string(), display_name: "Opus".to_string() },
        workspace: None,
        version: Some("1.0.80".to_string()),
        output_style: None,
        cost: Some(Cost {
            total_cost_usd_bits: 0.02f64.to_bits(),
            total_duration_ms: 3_900_000,
            total_api_duration_ms: 12_345,
            total_lines_added: 150,
            total_lines_removed: 30,
        }),
        context_window: Some(ContextWindow {
            total_input_tokens: 50_400,
            total_output_tokens: 5_300,
            context_window_size: 200_000,
            used_percentage_bits: None,
            remaining_percentage_bits: None,
            current_usage: None,
        }),
    }
}

fn text(a: MetricAction) -> String {
    match a {
        MetricAction::Text(s) => s,
        other => panic!("expected text, got {other:?}"),
    }
}

#[test]
fn hook_file_path_is_fixed() {
    assert_eq!(HOOK_FILE_PATH, "/tmp/code-session-starship.json");
}

#[test]
fn metrics_from_hook_data() {
    let h = hook();
    assert_eq!(text(plan_metric(Metric::Tokens, &h)), "55k");
    assert_eq!(text(plan_metric(Metric::Input, &h)), "50k");
    assert_eq!(text(plan_metric(Metric::Output, &h)), "5k");
    assert_eq!(text(plan_metric(Metric::Lines, &h)), "+150 -30");
    assert_eq!(text(plan_metric(Metric::Model, &h)), "Opus");
    assert_eq!(text(plan_metric(Metric::Api, &h)), "12s");
    assert_eq!(text(plan_metric(Metric::Version, &h)), "1.0.80");
    assert_eq!(text(plan_metric(Metric::Duration, &h)), "1h 5m");
    assert_eq!(plan_metric(Metric::Cost, &h), MetricAction::DollarsBits(0.02f64.to_bits()));
    assert_eq!(plan_metric(Metric::Context, &h), MetricAction::PercentOf { used: 55_700, size: 200_000 });
    for m in [Metric::Messages, Metric::Response, Metric::Block, Metric::Today] {
        assert_eq!(plan_metric(m, &h), MetricAction::ReadTranscript("/tmp/transcript.jsonl".to_string()));
    }
}

#[test]
fn metrics_without_data_print_nothing() {
    let mut h = hook();
    h.cost = None;
    h.context_window = None;
    h.version = None;
    h.transcript_path = None;
    for m in [
        Metric::Cost, Metric::Tokens, Metric::Input, Metric::Output, Metric::Lines, Metric::Context,
        Metric::Duration, Metric::Api, Metric::Version, Metric::Messages, Metric::Response,
        Metric::Block, Metric::Today,
    ] {
        assert_eq!(plan_metric(m, &h), MetricAction::Nothing);
    }
    assert_eq!(text(plan_metric(Metric::Model, &h)), "Opus");
}

#[test]
fn context_prefers_reported_percentage() {
    let mut h = hook();
    h.context_window.as_mut().unwrap().used_percentage_bits = Some(27.6f64.to_bits());
    assert_eq!(plan_metric(Metric::Context, &h), MetricAction::PercentBits(27.6f64.to_bits()));
    let mut h = hook();
    h.context_window.as_mut().unwrap().context_window_size = 0;
    assert_eq!(plan_metric(Metric::Context, &h), MetricAction::Nothing);
}

#[test]
fn small_counts_render_without_thousands() {
    let mut h = hook();
    let c = h.context_window.as_mut().unwrap();
    c.total_input_tokens = 999;
    c.total_output_tokens = 0;
    assert_eq!(text(plan_metric(Metric::Tokens, &h)), "0k");
    let cost = h.cost.as_mut().unwrap();
    cost.total_lines_added = 0;
    cost.total_lines_removed = 18_446_744_073_709_551_615;
    assert_eq!(text(plan_metric(Metric::Lines, &h)), "+0 -18446744073709551615");
}

fn jiff_duration(ms: u64) -> String {
    let d = jiff::SignedDuration::from_millis(ms as i64);
    format!("{:#}", jiff::SignedDuration::from_secs(d.as_secs()))
}

#[test]
fn duration_matches_jiff() {
    for ms in [
        0u64, 999, 1_000, 45_000, 59_999, 60_000, 3_599_999, 3_600_000, 3_660_000, 3_903_500,
        45_000_000, 360_000_000_000,
        9_223_372_036_854_775_807, 9_223_372_036_854_775_808, 18_446_744_073_709_491_615,
        18_446_744_073_709_551_615,
    ] {
        let mut h = hook();
        h.cost.as_mut().unwrap().total_duration_ms = ms;
        assert_eq!(text(plan_metric(Metric::Duration, &h)), jiff_duration(ms), "ms = {ms}");
    }
    assert_eq!(seconds_of_millis(2_999), 2);
    assert_eq!(seconds_of_millis(u64::MAX), 0);
    assert_eq!(seconds_of_millis(u64::MAX - 1_999), -2);
}

#[test]
fn duration_texts() {
    let mut h = hook();
    for (ms, want) in [
        (0u64, "0s"),
        (45_000, "45s"),
        (60_000, "1m"),
        (3_600_000, "1h"),
        (3_603_000, "1h 3s"),
        (3_903_999, "1h 5m 3s"),
        (5_460_000, "1h 31m"),
    ] {
        h.cost.as_mut().unwrap().total_duration_ms = ms;
        assert_eq!(text(plan_metric(Metric::Duration, &h)), want);
    }
    h.cost.as_mut().unwrap().total_duration_ms = u64::MAX - 3_661_000 + 1;
    assert_eq!(text(plan_metric(Metric::Duration, &h)), "1h 1m 1s ago");
}

#[test]
fn floating_point_fields_compare_as_numbers() {
    let mut a = hook();
    let mut b = hook();
    assert_eq!(a, b);
    a.cost.as_mut().unwrap().total_cost_usd_bits = 0.0f64.to_bits();
    b.cost.as_mut().unwrap().total_cost_usd_bits = (-0.0f64).to_bits();
    assert_eq!(a, b);
    a.cost.as_mut().unwrap().total_cost_usd_bits = f64::NAN.to_bits();
    b.cost.as_mut().unwrap().total_cost_usd_bits = f64::NAN.to_bits();
    assert_ne!(a, b);
    let c = hook();
    let mut d = hook();
    d.context_window.as_mut().unwrap().used_percentage_bits = Some(f64::NAN.to_bits());
    let mut e = d.clone();
    assert_ne!(d, e);
    d.context_window.as_mut().unwrap().used_percentage_bits = Some(12.5f64.to_bits());
    e.context_window.as_mut().unwrap().used_percentage_bits = Some(12.5f64.to_bits());
    assert_eq!(d, e);
    assert_ne!(c, d);
    let mut f = hook();
    f.model.display_name = "Sonnet".to_string();
    assert_ne!(c, f);
    assert_eq!(c.cost.unwrap(), hook().cost.unwrap());
}

#[test]
fn chrono_time_range() {
    assert_eq!(MIN_SECS, chrono::DateTime::<chrono::Utc>::MIN_UTC.timestamp());
    assert_eq!(MAX_SECS, chrono::DateTime::<chrono::Utc>::MAX_UTC.timestamp());
    assert!(chrono::DateTime::from_timestamp(MIN_SECS, 0).is_some());
    assert!(chrono::DateTime::from_timestamp(MIN_SECS - 1, 0).is_none());
    assert!(chrono::DateTime::from_timestamp(MAX_SECS, 1_999_999_999).is_some());
    assert!(chrono::DateTime::from_timestamp(MAX_SECS + 1, 0).is_none());
    assert!(Timestamp::from_parts(MIN_SECS, 0).is_some());
    assert!(Timestamp::from_parts(MIN_SECS - 1, 0).is_none());
    assert!(Timestamp::from_parts(MAX_SECS, 1_999_999_999).is_some());
    assert!(Timestamp::from_parts(MAX_SECS + 1, 0).is_none());
    for (secs, nanos) in [(59i64, 1_000_000_000u32), (58, 1_000_000_000), (-1, 1_500_000_000), (-2, 1_500_000_000), (0, 2_000_000_000)] {
        assert_eq!(
            Timestamp::from_parts(secs, nanos).is_some(),
            chrono::DateTime::from_timestamp(secs, nanos).is_some(),
            "{secs} {nanos}"
        );
    }
}

fn chrono_ms(a: &str, b: &str) -> i64 {
    let a = a.parse::<chrono::DateTime<chrono::Utc>>().unwrap();
    let b = b.parse::<chrono::DateTime<chrono::Utc>>().unwrap();
    (a - b).num_milliseconds()
}

#[test]
fn response_times_follow_chrono() {
    let pairs = [
        ("2026-01-30T10:00:00Z", "2026-01-30T10:00:05.1239Z"),
        ("2026-01-30T10:00:05.9999Z", "2026-01-30T10:00:00Z"),
        ("2016-12-31T23:59:60.5Z", "2017-01-01T00:00:01Z"),
        ("2016-12-31T23:59:59Z", "2016-12-31T23:59:60.25Z"),
        ("2017-01-01T00:00:01Z", "2016-12-31T23:59:60.75Z"),
        ("2026-01-30T10:00:00+02:00", "2026-01-30T09:00:00Z"),
    ];
    for (user, assistant) in pairs {
        let lines = vec![entry("user", Some(user)), entry("assistant", Some(assistant))];
        assert_eq!(collect_response_times(&lines), vec![chrono_ms(assistant, user)], "{user} {assistant}");
        let reversed = vec![entry("user", Some(assistant)), entry("assistant", Some(user))];
        assert_eq!(collect_response_times(&reversed), vec![-chrono_ms(assistant, user)]);
    }
}

#[test]
fn response_pairs_each_user_with_next_assistant() {
    let lines = vec![
        entry("user", Some("2026-01-30T10:00:00Z")),
        entry("progress", Some("2026-01-30T10:00:01Z")),
        entry("user", Some("2026-01-30T10:00:02Z")),
        entry("assistant", Some("2026-01-30T10:00:03Z")),
        entry("assistant", Some("2026-01-30T10:00:09Z")),
        entry("user", None),
        entry("assistant", Some("2026-01-30T10:00:20Z")),
        entry("user", Some("2026-01-30T10:00:30Z")),
        entry("assistant", Some("2026-01-30T10:00:34Z")),
    ];
    assert_eq!(collect_response_times(&lines), vec![1000, 4000]);
}

#[test]
fn unparsable_line_ends_response_times_but_not_counts() {
    let lines = vec![
        entry("user", Some("2026-01-30T10:00:00Z")),
        entry("assistant", Some("2026-01-30T10:00:02Z")),
        None,
        entry("user", Some("2026-01-30T10:00:10Z")),
        entry("assistant", Some("2026-01-30T10:00:11Z")),
    ];
    assert_eq!(collect_response_times(&lines), vec![2000]);
    assert_eq!(count_messages(&lines), 4);
}

fn times_transcript(times_ms: &[i64]) -> Vec<Line> {
    let base = ts("2026-01-30T00:00:00Z");
    let mut lines = Vec::new();
    for (i, ms) in times_ms.iter().enumerate() {
        let start = base.secs + 1000 * i as i64;
        let user = Timestamp::from_parts(start, 0).unwrap();
        let answer = Timestamp::from_parts(start + ms / 1000, ((ms % 1000) * 1_000_000) as u32).unwrap();
        lines.push(Some(TranscriptEntry { entry_type: "user".to_string(), timestamp: Some(user), message: None }));
        lines.push(Some(TranscriptEntry { entry_type: "assistant".to_string(), timestamp: Some(answer), message: None }));
    }
    lines
}

#[test]
fn percentiles_by_number_of_responses() {
    let nine: Vec<i64> = (1..=9).map(|i| i * 100).collect();
    assert_eq!(response_time_percentiles(&times_transcript(&nine)), vec![400]);
    let ten: Vec<i64> = (1..=10).rev().map(|i| i * 100).collect();
    assert_eq!(response_time_percentiles(&times_transcript(&ten)), vec![500, 900]);
    let hundred: Vec<i64> = (1..=100).map(|i| (i * 37 % 101) * 10).collect();
    let p = response_time_percentiles(&times_transcript(&hundred));
    let mut sorted = hundred.clone();
    sorted.sort();
    assert_eq!(p, vec![sorted[49], sorted[89], sorted[98]]);
    assert!(p[0] <= p[1] && p[1] <= p[2]);
    let one = vec![1234];
    assert_eq!(response_time_percentiles(&times_transcript(&one)), vec![1234]);
    assert!(response_time_percentiles(&Vec::new()).is_empty());
}

#[test]
fn percentiles_line_colors() {
    let three = vec!["1.0".to_string(), "2.5".to_string(), "9.9".to_string()];
    assert_eq!(
        render_percentiles(&three),
        "\x1b[32m1.0s\x1b[0m/\x1b[33m2.5s\x1b[0m/\x1b[31m9.9s\x1b[0m"
    );
    assert_eq!(render_percentiles(&vec!["0.4".to_string()]), "\x1b[32m0.4s\x1b[0m");
}

#[test]
fn pricing_order_of_families() {
    assert_eq!(ModelPricing::for_model("opus-4-5"), ModelPricing::opus_4_5());
    assert_eq!(ModelPricing::for_model("opus-4.5"), ModelPricing::opus_4_5());
    assert_eq!(ModelPricing::for_model("opus-4-1-20250805"), ModelPricing::opus_4());
    assert_eq!(ModelPricing::for_model("sonnet-3.5"), ModelPricing::sonnet_3_5());
    assert_eq!(ModelPricing::for_model("haiku-4.5"), ModelPricing::haiku_4_5());
    assert_eq!(ModelPricing::for_model("haiku-3-5-20241022"), ModelPricing::haiku_3_5());
    assert_eq!(ModelPricing::for_model("haiku-3.5"), ModelPricing::haiku_3_5());
    assert_eq!(ModelPricing::for_model("haiku-3-20240307"), ModelPricing::haiku_3());
    assert_eq!(ModelPricing::for_model("3-5-haiku"), ModelPricing::sonnet_4());
    assert_eq!(ModelPricing::for_model(""), ModelPricing::sonnet_4());
    assert_eq!(ModelPricing::for_model("ópus-4-5"), ModelPricing::sonnet_4());
}

#[test]
fn exact_costs_in_microcents() {
    let usage = TokenUsage {
        input_tokens: Some(1),
        output_tokens: Some(2),
        cache_creation_input_tokens: Some(3),
        cache_read_input_tokens: Some(4),
    };
    // 1*80 + 2*400 + 4*8 + 3*100
    assert_eq!(usage.cost(ModelPricing::haiku_3_5()), 1212);
    let max = TokenUsage {
        input_tokens: Some(u64::MAX),
        output_tokens: Some(u64::MAX),
        cache_creation_input_tokens: Some(u64::MAX),
        cache_read_input_tokens: Some(u64::MAX),
    };
    assert_eq!(max.cost(ModelPricing::opus_4()), u128::from(u64::MAX) * (1500 + 7500 + 150 + 1875));
}

#[test]
fn later_cutoff_never_costs_more() {
    let lines = vec![
        assistant_with_usage("2026-01-30T08:00:00Z", Some("haiku-3"), 1000, 10),
        assistant_with_usage("2026-01-30T09:00:00Z", None, 2000, 20),
        assistant_with_usage("2026-01-30T10:00:00Z", Some("opus-4"), 3000, 30),
    ];
    let mut last = u128::MAX;
    for cutoff in ["2026-01-30T07:00:00Z", "2026-01-30T08:00:00Z", "2026-01-30T08:00:00.1Z", "2026-01-30T10:00:00Z", "2026-01-30T11:00:00Z"] {
        let c = sum_cost_since(&lines, &ts(cutoff));
        assert!(c <= last);
        last = c;
    }
    assert_eq!(sum_cost_since(&lines, &ts("2026-01-30T07:00:00Z")), 1000 * 25 + 10 * 125 + 2000 * 300 + 20 * 1500 + 3000 * 1500 + 30 * 7500);
    assert_eq!(last, 0);
}

#[test]
fn cutoffs_from_the_clock() {
    let now = ts("2026-01-30T13:45:07.5Z");
    assert_eq!(billing_window_start(&now), ts("2026-01-30T08:45:07.5Z"));
    assert_eq!(start_of_day(&now), ts("2026-01-30T00:00:00Z"));
    assert_eq!(start_of_day(&ts("1969-12-31T23:59:59Z")), ts("1969-12-31T00:00:00Z"));
    assert!(is_at_or_after(&now, &start_of_day(&now)));
}

#[test]
fn transcript_metrics() {
    let lines = vec![
        entry("user", Some("2026-01-30T07:00:00Z")),
        assistant_with_usage("2026-01-30T07:00:04Z", Some("sonnet-4"), 1_000_000, 0),
        entry("user", Some("2026-01-30T12:00:00Z")),
        assistant_with_usage("2026-01-30T12:00:02Z", Some("opus-4-5"), 1_000_000, 0),
    ];
    let now = ts("2026-01-30T13:00:00Z");
    assert_eq!(text(transcript_metric(Metric::Messages, &lines, &now)), "4");
    assert_eq!(transcript_metric(Metric::Response, &lines, &now), MetricAction::ResponsePercentiles(vec![2000]));
    assert_eq!(transcript_metric(Metric::Block, &lines, &now), MetricAction::DollarsMicrocents(500_000_000));
    assert_eq!(transcript_metric(Metric::Today, &lines, &now), MetricAction::DollarsMicrocents(800_000_000));
    assert_eq!(transcript_metric(Metric::Response, &vec![], &now), MetricAction::Nothing);
    assert_eq!(transcript_metric(Metric::Model, &lines, &now), MetricAction::Nothing);
}

#[test]
fn counts_and_costs_add_over_joined_transcripts() {
    let a = vec![
        entry("user", Some("2026-01-30T09:00:00Z")),
        assistant_with_usage("2026-01-30T09:00:01Z", Some("haiku-4-5"), 500, 50),
        None,
    ];
    let b = vec![
        entry("progress", None),
        assistant_with_usage("2026-01-30T09:30:00Z", Some("sonnet-3-5"), 700, 70),
        entry("assistant", None),
    ];
    let joined: Vec<Line> = a.iter().chain(b.iter()).cloned().collect();
    let cutoff = ts("2026-01-30T00:00:00Z");
    assert_eq!(count_messages(&joined), count_messages(&a) + count_messages(&b));
    assert_eq!(count_messages(&joined), 4);
    assert_eq!(sum_cost_since(&joined, &cutoff), sum_cost_since(&a, &cutoff) + sum_cost_since(&b, &cutoff));
    assert_eq!(sum_cost_since(&joined, &cutoff), 500 * 100 + 50 * 500 + 700 * 300 + 70 * 1500);
}
