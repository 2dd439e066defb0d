//! The metrics that the Starship modules display, and what to print for each.
//!
//! `plan_metric` decides, from the hook data alone, what a metric prints.
//! Where the answer lies in the transcript, it asks for the transcript to be
//! read, and `transcript_metric` finishes the work. Amounts that the hook
//! data gives as floating-point numbers are passed on, by their bits, for the
//! program to print.

use vstd::prelude::*;
use crate::hook::{ContextWindow, HookData};
use crate::text::{decimal, decimal_string};
use crate::timestamp::{
    BILLING_WINDOW_SECS, MIN_SECS, Timestamp, at_or_after, billing_window_start, day_start,
    div_toward_zero, start_of_day, window_start,
};
use crate::transcript::{
    Line, cost_since, count_messages, message_count, percentiles_of, response_time_percentiles,
    saturate, sorted_response_times, sum_cost_since, timestamps_valid,
};

verus! {

/// The metric to display.
#[derive(Clone, Copy, Debug, PartialEq, Eq)]
pub enum Metric {
    /// Official session cost reported by the assistant in USD (e.g., "$0.02")
    Cost,
    /// Total tokens in thousands (e.g., "55k")
    Tokens,
    /// Input tokens only in thousands (e.g., "50k")
    Input,
    /// Output tokens only in thousands (e.g., "5k")
    Output,
    /// Lines added/removed (e.g., "+150 -30")
    Lines,
    /// Model display name (e.g., "Opus")
    Model,
    /// Context window usage percentage (e.g., "28%")
    Context,
    /// Session wall-clock duration (e.g., "45s")
    Duration,
    /// Time spent waiting for API responses (e.g., "12s")
    Api,
    /// Assistant version (e.g., "1.0.80")
    Version,
    /// Number of messages in conversation (e.g., "12")
    Messages,
    /// Response time percentiles in seconds (e.g., "3.2s")
    Response,
    /// Estimated cost in the 5-hour billing window, calculated from the transcript (e.g., "$1.23")
    Block,
    /// Estimated cost today, calculated from the transcript (e.g., "$5.67")
    Today,
}

/// What to print for a metric.
#[derive(Clone, Debug, PartialEq, Eq)]
pub enum MetricAction {
    /// Print nothing.
    Nothing,
    /// Print this line.
    Text(String),
    /// Print `$` and an `f64` amount of US dollars, given by its bits, to two decimals.
    DollarsBits(u64),
    /// Print an `f64` percentage, given by its bits, to no decimals, and `%`.
    PercentBits(u64),
    /// Print `used / size * 100`, computed in `f64`, to no decimals, and `%`.
    PercentOf { used: u64, size: u64 },
    /// Read the transcript at this path and finish with `transcript_metric`;
    /// print nothing if it cannot be opened.
    ReadTranscript(String),
    /// Print `$` and an amount of microcents (10^-8 USD) in dollars, to two decimals.
    DollarsMicrocents(u128),
    /// Print these response-time percentiles, in milliseconds, each as seconds
    /// to one decimal, joined by `render_percentiles`.
    ResponsePercentiles(Vec<i64>),
}

/// `a` prints exactly the characters `s`.
pub open spec fn prints(a: MetricAction, s: Seq<char>) -> bool {
    a matches MetricAction::Text(t) && t@ == s
}

/// The session duration in milliseconds as the signed 64-bit number that
/// `as i64` makes of it (wrapping above `i64::MAX`).
pub open spec fn signed_millis(ms: u64) -> int {
    if ms <= i64::MAX {
        ms as int
    } else {
        ms - 0x1_0000_0000_0000_0000
    }
}

/// The whole seconds of a duration in milliseconds, truncated toward zero.
pub open spec fn duration_seconds(ms: u64) -> int {
    div_toward_zero(signed_millis(ms), 1000)
}

/// `n` followed by `unit`, or nothing when `n` is zero.
pub open spec fn unit_text(n: int, unit: Seq<char>) -> Seq<Seq<char>> {
    if n == 0 {
        Seq::empty()
    } else {
        seq![decimal(n as nat) + unit]
    }
}

/// The parts joined by single spaces.
pub open spec fn spaced(parts: Seq<Seq<char>>) -> Seq<char>
    decreases parts.len(),
{
    if parts.len() == 0 {
        Seq::empty()
    } else if parts.len() == 1 {
        parts[0]
    } else {
        parts[0] + " "@ + spaced(parts.drop_first())
    }
}

/// jiff's "friendly" rendering of a whole number of seconds `secs`: the
/// nonzero ones of hours, minutes and seconds, as `1h 5m 3s`, `45s` or
/// `2h`, `0s` for zero, and ` ago` after a negative duration.
pub open spec fn friendly_seconds(secs: int) -> Seq<char> {
    let a = if secs < 0 { -secs } else { secs };
    let parts = unit_text(a / 3600, "h"@) + unit_text((a % 3600) / 60, "m"@) + unit_text(a % 60, "s"@);
    let body = if parts.len() == 0 { "0s"@ } else { spaced(parts) };
    if secs < 0 {
        body + " ago"@
    } else {
        body
    }
}

/// Calls jiff: `format!("{:#}", SignedDuration::from_secs(secs))`, the
/// "friendly" format of jiff's default span printer. The contract claims what
/// jiff's printer does for a whole number of seconds: it balances them into
/// hours, minutes and seconds, writes each nonzero unit as its number and `h`,
/// `m` or `s`, separated by a space, writes `0s` when all are zero, and
/// appends ` ago` to a negative duration.
#[verifier::external_body]
fn jiff_friendly_seconds(secs: i64) -> (s: String)
    ensures
        s@ == friendly_seconds(secs as int),
{
    format!("{:#}", jiff::SignedDuration::from_secs(secs))
}

/// The whole seconds of `ms` milliseconds, read as a signed duration.
pub fn seconds_of_millis(ms: u64) -> (secs: i64)
    ensures
        secs == duration_seconds(ms),
{
    if ms <= i64::MAX as u64 {
        (ms / 1000) as i64
    } else {
        let magnitude = (u64::MAX - ms) + 1;
        -((magnitude / 1000) as i64)
    }
}

/// The sum of input and output tokens fits in a `u64` wherever the metric adds them.
pub open spec fn token_sum_fits(metric: Metric, hook: HookData) -> bool {
    match hook.context_window {
        Some(c) => (metric == Metric::Tokens || (metric == Metric::Context
            && c.used_percentage_bits is None && c.context_window_size > 0))
            ==> c.total_input_tokens + c.total_output_tokens <= u64::MAX,
        None => true,
    }
}

/// What `plan_metric` decides for `metric` on `hook`.
pub open spec fn planned(metric: Metric, hook: HookData, a: MetricAction) -> bool {
    match metric {
        Metric::Cost => match hook.cost {
            Some(c) => a == MetricAction::DollarsBits(c.total_cost_usd_bits),
            None => a == MetricAction::Nothing,
        },
        Metric::Tokens => match hook.context_window {
            Some(c) => prints(a, decimal(((c.total_input_tokens + c.total_output_tokens) / 1000) as nat) + "k"@),
            None => a == MetricAction::Nothing,
        },
        Metric::Input => match hook.context_window {
            Some(c) => prints(a, decimal((c.total_input_tokens / 1000) as nat) + "k"@),
            None => a == MetricAction::Nothing,
        },
        Metric::Output => match hook.context_window {
            Some(c) => prints(a, decimal((c.total_output_tokens / 1000) as nat) + "k"@),
            None => a == MetricAction::Nothing,
        },
        Metric::Lines => match hook.cost {
            Some(c) => prints(a, "+"@ + decimal(c.total_lines_added as nat) + " -"@ + decimal(c.total_lines_removed as nat)),
            None => a == MetricAction::Nothing,
        },
        Metric::Model => prints(a, hook.model.display_name@),
        Metric::Context => match hook.context_window {
            Some(c) => match c.used_percentage_bits {
                Some(bits) => a == MetricAction::PercentBits(bits),
                None => if c.context_window_size > 0 {
                    a == (MetricAction::PercentOf {
                        used: (c.total_input_tokens + c.total_output_tokens) as u64,
                        size: c.context_window_size,
                    })
                } else {
                    a == MetricAction::Nothing
                },
            },
            None => a == MetricAction::Nothing,
        },
        Metric::Duration => match hook.cost {
            Some(c) => prints(a, friendly_seconds(duration_seconds(c.total_duration_ms))),
            None => a == MetricAction::Nothing,
        },
        Metric::Api => match hook.cost {
            Some(c) => prints(a, decimal((c.total_api_duration_ms / 1000) as nat) + "s"@),
            None => a == MetricAction::Nothing,
        },
        Metric::Version => match hook.version {
            Some(v) => prints(a, v@),
            None => a == MetricAction::Nothing,
        },
        Metric::Messages | Metric::Response | Metric::Block | Metric::Today => match hook.transcript_path {
            Some(p) => a matches MetricAction::ReadTranscript(q) && q@ == p@,
            None => a == MetricAction::Nothing,
        },
    }
}

/// `s` followed by the literal `suffix`.
fn with_suffix(s: String, suffix: &str) -> (r: String)
    ensures
        r@ == s@ + suffix@,
{
    let mut r = s;
    r.append(suffix);
    r
}

fn thousands_text(n: u64) -> (a: MetricAction)
    ensures
        prints(a, decimal((n / 1000) as nat) + "k"@),
{
    MetricAction::Text(with_suffix(decimal_string(n / 1000), "k"))
}

/// Decides what `metric` prints, from the hook data alone.
pub fn plan_metric(metric: Metric, hook: &HookData) -> (a: MetricAction)
    requires
        token_sum_fits(metric, *hook),
    ensures
        planned(metric, *hook, a),
{
    match metric {
        Metric::Cost => match &hook.cost {
            Some(c) => MetricAction::DollarsBits(c.total_cost_usd_bits),
            None => MetricAction::Nothing,
        },
        Metric::Tokens => match &hook.context_window {
            Some(c) => thousands_text(c.total_input_tokens + c.total_output_tokens),
            None => MetricAction::Nothing,
        },
        Metric::Input => match &hook.context_window {
            Some(c) => thousands_text(c.total_input_tokens),
            None => MetricAction::Nothing,
        },
        Metric::Output => match &hook.context_window {
            Some(c) => thousands_text(c.total_output_tokens),
            None => MetricAction::Nothing,
        },
        Metric::Lines => match &hook.cost {
            Some(c) => {
                let mut s = String::from_str("+");
                s.append(decimal_string(c.total_lines_added).as_str());
                s.append(" -");
                s.append(decimal_string(c.total_lines_removed).as_str());
                proof {
                    reveal_strlit("+");
                    assert(s@ =~= "+"@ + decimal(c.total_lines_added as nat) + " -"@
                        + decimal(c.total_lines_removed as nat));
                }
                MetricAction::Text(s)
            },
            None => MetricAction::Nothing,
        },
        Metric::Model => MetricAction::Text(hook.model.display_name.clone()),
        Metric::Context => match &hook.context_window {
            Some(c) => match c.used_percentage_bits {
                Some(bits) => MetricAction::PercentBits(bits),
                None => {
                    if c.context_window_size > 0 {
                        MetricAction::PercentOf {
                            used: c.total_input_tokens + c.total_output_tokens,
                            size: c.context_window_size,
                        }
                    } else {
                        MetricAction::Nothing
                    }
                },
            },
            None => MetricAction::Nothing,
        },
        Metric::Duration => match &hook.cost {
            Some(c) => MetricAction::Text(jiff_friendly_seconds(seconds_of_millis(c.total_duration_ms))),
            None => MetricAction::Nothing,
        },
        Metric::Api => match &hook.cost {
            Some(c) => MetricAction::Text(with_suffix(decimal_string(c.total_api_duration_ms / 1000), "s")),
            None => MetricAction::Nothing,
        },
        Metric::Version => match &hook.version {
            Some(v) => MetricAction::Text(v.clone()),
            None => MetricAction::Nothing,
        },
        Metric::Messages | Metric::Response | Metric::Block | Metric::Today => match &hook.transcript_path {
            Some(p) => MetricAction::ReadTranscript(p.clone()),
            None => MetricAction::Nothing,
        },
    }
}

/// What the clock may read for `metric`: a time chrono represents, and for the
/// billing window, not inside a leap second and at least five hours after
/// chrono's earliest time.
pub open spec fn clock_fits(metric: Metric, now: Timestamp) -> bool {
    &&& now.valid()
    &&& metric == Metric::Block ==> now.is_regular() && now.secs - BILLING_WINDOW_SECS >= MIN_SECS
}

/// What `transcript_metric` decides for `metric` on the transcript `lines`
/// read at `now`.
pub open spec fn finished(metric: Metric, lines: Seq<Line>, now: Timestamp, a: MetricAction) -> bool {
    match metric {
        Metric::Messages => prints(a, decimal(message_count(lines))),
        Metric::Response => {
            let p = percentiles_of(sorted_response_times(lines));
            if p.len() == 0 {
                a == MetricAction::Nothing
            } else {
                a matches MetricAction::ResponsePercentiles(v) && v@ == p
            }
        },
        Metric::Block => a == MetricAction::DollarsMicrocents(saturate(cost_since(lines, window_start(now))) as u128),
        Metric::Today => a == MetricAction::DollarsMicrocents(saturate(cost_since(lines, day_start(now))) as u128),
        _ => a == MetricAction::Nothing,
    }
}

/// Finishes a metric that reads the transcript, given its lines and the
/// current time.
pub fn transcript_metric(metric: Metric, lines: &Vec<Line>, now: &Timestamp) -> (a: MetricAction)
    requires
        timestamps_valid(lines@),
        clock_fits(metric, *now),
    ensures
        finished(metric, lines@, *now, a),
{
    match metric {
        Metric::Messages => MetricAction::Text(decimal_string(count_messages(lines))),
        Metric::Response => {
            let p = response_time_percentiles(lines);
            if p.len() == 0 {
                MetricAction::Nothing
            } else {
                MetricAction::ResponsePercentiles(p)
            }
        },
        Metric::Block => {
            let cutoff = billing_window_start(now);
            MetricAction::DollarsMicrocents(sum_cost_since(lines, &cutoff))
        },
        Metric::Today => {
            let cutoff = start_of_day(now);
            MetricAction::DollarsMicrocents(sum_cost_since(lines, &cutoff))
        },
        _ => MetricAction::Nothing,
    }
}


// ---------------------------------------------------------------- laws

/// Today's estimate is the cost since the UTC midnight that starts the day
/// of `now`: the one midnight `t` (whole days since the epoch) at or before
/// `now` and less than a day before it.
pub proof fn lemma_today_costs_since_midnight(lines: Seq<Line>, now: Timestamp, a: MetricAction, t: Timestamp)
    requires
        finished(Metric::Today, lines, now, a),
        t.nanos == 0,
        t.secs % 86_400 == 0,
        at_or_after(now, t),
        now.secs - t.secs < 86_400,
    ensures
        a == MetricAction::DollarsMicrocents(saturate(cost_since(lines, t)) as u128),
{
    assert(t == day_start(now));
}

/// The billing-window estimate is the cost since five hours (18000 seconds)
/// before `now`.
pub proof fn lemma_block_costs_last_five_hours(lines: Seq<Line>, now: Timestamp, a: MetricAction)
    requires
        finished(Metric::Block, lines, now, a),
    ensures
        a == MetricAction::DollarsMicrocents(
            saturate(cost_since(lines, Timestamp { secs: (now.secs - 18_000) as i64, nanos: now.nanos })) as u128,
        ),
{
}

/// The message count is printed in decimal; the response percentiles are
/// reported exactly when there is a response; metrics that do not read the
/// transcript print nothing from it.
pub proof fn lemma_transcript_metric_results(metric: Metric, lines: Seq<Line>, now: Timestamp, a: MetricAction)
    requires
        finished(metric, lines, now, a),
    ensures
        metric == Metric::Messages ==> prints(a, decimal(message_count(lines))),
        metric == Metric::Response ==> (a == MetricAction::Nothing <==> percentiles_of(sorted_response_times(lines)).len() == 0),
        metric == Metric::Response && a != MetricAction::Nothing ==> a == MetricAction::ResponsePercentiles(
            a->ResponsePercentiles_0,
        ) && a->ResponsePercentiles_0@ == percentiles_of(sorted_response_times(lines)),
        metric != Metric::Messages && metric != Metric::Response && metric != Metric::Block && metric != Metric::Today
            ==> a == MetricAction::Nothing,
{
}

/// Where the context window reports a used percentage, the Context metric
/// prints that percentage, whatever else the window holds.
pub proof fn lemma_context_reports_used_percentage(hook: HookData, a: MetricAction)
    requires
        planned(Metric::Context, hook, a),
        hook.context_window matches Some(c) && c.used_percentage_bits is Some,
    ensures
        a == MetricAction::PercentBits(hook.context_window->Some_0.used_percentage_bits->Some_0),
{
}

/// The hook data with the remaining percentage of its context window replaced.
pub open spec fn with_remaining_percentage(hook: HookData, r: Option<u64>) -> HookData {
    match hook.context_window {
        Some(c) => HookData { context_window: Some(ContextWindow { remaining_percentage_bits: r, ..c }), ..hook },
        None => hook,
    }
}

/// No metric depends on the remaining percentage of the context window.
pub proof fn lemma_remaining_percentage_unused(metric: Metric, hook: HookData, r: Option<u64>, a: MetricAction)
    ensures
        planned(metric, hook, a) == planned(metric, with_remaining_percentage(hook, r), a),
{
}

/// What each metric prints from the hook data: thousands of tokens with `k`,
/// lines as `+added -removed`, the model's display name, the API time in whole
/// seconds with `s`, the version, the cost and percentages as given, and
/// nothing where the data is absent.
pub proof fn lemma_hook_metric_results(metric: Metric, hook: HookData, a: MetricAction)
    requires
        planned(metric, hook, a),
    ensures
        metric == Metric::Model ==> prints(a, hook.model.display_name@),
        hook.context_window matches Some(c) ==> {
            &&& metric == Metric::Tokens ==> prints(a, decimal(((c.total_input_tokens + c.total_output_tokens) / 1000) as nat) + "k"@)
            &&& metric == Metric::Input ==> prints(a, decimal((c.total_input_tokens / 1000) as nat) + "k"@)
            &&& metric == Metric::Output ==> prints(a, decimal((c.total_output_tokens / 1000) as nat) + "k"@)
            &&& metric == Metric::Context && c.used_percentage_bits is None && c.context_window_size > 0 ==> a
                == (MetricAction::PercentOf {
                used: (c.total_input_tokens + c.total_output_tokens) as u64,
                size: c.context_window_size,
            })
            &&& metric == Metric::Context && c.used_percentage_bits is None && c.context_window_size == 0 ==> a
                == MetricAction::Nothing
        },
        hook.context_window is None && (metric == Metric::Tokens || metric == Metric::Input || metric
            == Metric::Output || metric == Metric::Context) ==> a == MetricAction::Nothing,
        hook.cost matches Some(c) ==> {
            &&& metric == Metric::Cost ==> a == MetricAction::DollarsBits(c.total_cost_usd_bits)
            &&& metric == Metric::Lines ==> prints(a, "+"@ + decimal(c.total_lines_added as nat) + " -"@ + decimal(c.total_lines_removed as nat))
            &&& metric == Metric::Api ==> prints(a, decimal((c.total_api_duration_ms / 1000) as nat) + "s"@)
            &&& metric == Metric::Duration ==> prints(a, friendly_seconds(duration_seconds(c.total_duration_ms)))
        },
        hook.cost is None && (metric == Metric::Cost || metric == Metric::Lines || metric == Metric::Api
            || metric == Metric::Duration) ==> a == MetricAction::Nothing,
        metric == Metric::Version ==> match hook.version {
            Some(v) => prints(a, v@),
            None => a == MetricAction::Nothing,
        },
        metric == Metric::Messages || metric == Metric::Response || metric == Metric::Block || metric
            == Metric::Today ==> match hook.transcript_path {
            Some(p) => a matches MetricAction::ReadTranscript(q) && q@ == p@,
            None => a == MetricAction::Nothing,
        },
{
}

/// The duration's whole seconds: for a duration that fits in an `i64`, the
/// largest whole number of seconds not above it.
pub proof fn lemma_duration_seconds_bounds(ms: u64)
    requires
        ms <= i64::MAX,
    ensures
        duration_seconds(ms) * 1000 <= ms < duration_seconds(ms) * 1000 + 1000,
{
}

/// A duration above `i64::MAX` milliseconds wraps to the negative number
/// `ms - 2^64`, whose whole seconds are truncated toward zero.
pub proof fn lemma_duration_seconds_wrapped(ms: u64)
    requires
        ms > i64::MAX,
    ensures
        duration_seconds(ms) <= 0,
        duration_seconds(ms) * 1000 - 1000 < ms - 0x1_0000_0000_0000_0000 <= duration_seconds(ms) * 1000,
{
}

} // verus!
