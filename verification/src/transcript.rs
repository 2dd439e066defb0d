//! Metrics computed from a session transcript.
//!
//! A transcript is a file of JSON lines. The program that reads it hands the
//! library one element per line read, up to the first line that could not be
//! read: `Some(entry)` where the line parsed as a transcript entry, `None`
//! where it did not.

use vstd::prelude::*;
use vstd::relations::{sorted_by, total_ordering};
use vstd::seq_lib::lemma_sorted_unique;
use crate::pricing::{ModelPricing, TokenUsage, count_or_zero, pricing_for, usage_cost};
use crate::text::str_eq;
use crate::timestamp::{Timestamp, at_or_after, is_at_or_after, millis_between, chrono_millis_between};

verus! {

/// Assistant message containing usage and model data.
#[derive(Clone, Debug, PartialEq, Eq)]
pub struct AssistantMessage {
    pub model: Option<String>,
    pub usage: Option<TokenUsage>,
}

/// One entry of the transcript.
#[derive(Clone, Debug, PartialEq, Eq)]
pub struct TranscriptEntry {
    /// The entry's `type` ("user", "assistant", "progress", ...).
    pub entry_type: String,
    pub timestamp: Option<Timestamp>,
    pub message: Option<AssistantMessage>,
}

/// A transcript line, parsed or not.
pub type Line = Option<TranscriptEntry>;

pub open spec fn is_user(e: TranscriptEntry) -> bool {
    e.entry_type@ == "user"@
}

pub open spec fn is_assistant(e: TranscriptEntry) -> bool {
    e.entry_type@ == "assistant"@
}

fn entry_is_user(e: &TranscriptEntry) -> (b: bool)
    ensures
        b == is_user(*e),
{
    str_eq(e.entry_type.as_str(), "user")
}

fn entry_is_assistant(e: &TranscriptEntry) -> (b: bool)
    ensures
        b == is_assistant(*e),
{
    str_eq(e.entry_type.as_str(), "assistant")
}

// ---------------------------------------------------------------- messages

/// A parsed line that is a user or an assistant message.
pub open spec fn is_message(line: Line) -> bool {
    match line {
        Some(e) => is_user(e) || is_assistant(e),
        None => false,
    }
}

/// The number of user and assistant messages among `lines`.
pub open spec fn message_count(lines: Seq<Line>) -> nat
    decreases lines.len(),
{
    if lines.len() == 0 {
        0
    } else {
        message_count(lines.drop_last()) + if is_message(lines.last()) { 1nat } else { 0nat }
    }
}

/// Counts the user and assistant messages in the transcript; lines that did
/// not parse are skipped.
pub fn count_messages(lines: &Vec<Line>) -> (n: u64)
    ensures
        n == message_count(lines@),
{
    let mut n: u64 = 0;
    let mut i: usize = 0;
    while i < lines.len()
        invariant
            i <= lines@.len(),
            n <= i,
            n == message_count(lines@.subrange(0, i as int)),
        decreases lines@.len() - i,
    {
        assert(lines@.subrange(0, i + 1).drop_last() =~= lines@.subrange(0, i as int));
        match &lines[i] {
            Some(e) => {
                if entry_is_user(e) || entry_is_assistant(e) {
                    n = n + 1;
                }
            },
            None => {},
        }
        i = i + 1;
    }
    assert(lines@.subrange(0, lines@.len() as int) =~= lines@);
    n
}

/// Counting messages distributes over joining two transcripts.
pub proof fn lemma_message_count_concat(a: Seq<Line>, b: Seq<Line>)
    ensures
        message_count(a + b) == message_count(a) + message_count(b),
    decreases b.len(),
{
    if b.len() == 0 {
        assert(a + b =~= a);
    } else {
        lemma_message_count_concat(a, b.drop_last());
        assert((a + b).drop_last() =~= a + b.drop_last());
        assert((a + b).last() == b.last());
    }
}

/// There are never more messages than lines.
pub proof fn lemma_message_count_at_most_lines(lines: Seq<Line>)
    ensures
        message_count(lines) <= lines.len(),
    decreases lines.len(),
{
    if lines.len() > 0 {
        lemma_message_count_at_most_lines(lines.drop_last());
    }
}

/// An empty transcript has no messages; appending a line adds one message
/// exactly when the line parsed and its type is "user" or "assistant".
pub proof fn lemma_message_count_push(lines: Seq<Line>, line: Line)
    ensures
        message_count(Seq::<Line>::empty()) == 0,
        message_count(lines.push(line)) == message_count(lines) + if line matches Some(e) && (
        e.entry_type@ == "user"@ || e.entry_type@ == "assistant"@) {
            1int
        } else {
            0int
        },
{
    assert(lines.push(line).drop_last() =~= lines);
}

// ---------------------------------------------------------------- cost

/// The model named by a message; no name reads as the empty name.
pub open spec fn model_name(m: AssistantMessage) -> Seq<char> {
    match m.model {
        Some(s) => s@,
        None => Seq::empty(),
    }
}

/// The estimated cost of one line, in microcents: that of an assistant
/// message at or after `cutoff` that records its usage, priced by its model.
pub open spec fn line_cost_since(line: Line, cutoff: Timestamp) -> nat {
    match line {
        Some(e) => {
            if !is_assistant(e) {
                0
            } else {
                match e.timestamp {
                    Some(ts) => {
                        if !at_or_after(ts, cutoff) {
                            0
                        } else {
                            match e.message {
                                Some(m) => match m.usage {
                                    Some(u) => usage_cost(u, pricing_for(model_name(m))),
                                    None => 0,
                                },
                                None => 0,
                            }
                        }
                    },
                    None => 0,
                }
            }
        },
        None => 0,
    }
}

/// The estimated cost of all lines since `cutoff`, in microcents.
pub open spec fn cost_since(lines: Seq<Line>, cutoff: Timestamp) -> nat
    decreases lines.len(),
{
    if lines.len() == 0 {
        0
    } else {
        cost_since(lines.drop_last(), cutoff) + line_cost_since(lines.last(), cutoff)
    }
}

/// `n`, or the largest `u128` where `n` is larger.
pub open spec fn saturate(n: nat) -> nat {
    if n <= u128::MAX {
        n
    } else {
        u128::MAX as nat
    }
}

/// The estimated cost distributes over joining two transcripts.
pub proof fn lemma_cost_since_concat(a: Seq<Line>, b: Seq<Line>, cutoff: Timestamp)
    ensures
        cost_since(a + b, cutoff) == cost_since(a, cutoff) + cost_since(b, cutoff),
    decreases b.len(),
{
    if b.len() == 0 {
        assert(a + b =~= a);
    } else {
        lemma_cost_since_concat(a, b.drop_last(), cutoff);
        assert((a + b).drop_last() =~= a + b.drop_last());
        assert((a + b).last() == b.last());
    }
}

/// A later cutoff never yields a larger estimated cost.
pub proof fn lemma_cost_since_later_cutoff(lines: Seq<Line>, early: Timestamp, late: Timestamp)
    requires
        at_or_after(late, early),
    ensures
        cost_since(lines, late) <= cost_since(lines, early),
    decreases lines.len(),
{
    if lines.len() > 0 {
        lemma_cost_since_later_cutoff(lines.drop_last(), early, late);
    }
}

/// Lines other than assistant messages add nothing to the estimated cost.
pub proof fn lemma_cost_since_ignores_non_assistant(lines: Seq<Line>, line: Line, cutoff: Timestamp)
    requires
        !(line matches Some(e) && is_assistant(e)),
    ensures
        cost_since(lines.push(line), cutoff) == cost_since(lines, cutoff),
{
    assert(lines.push(line).drop_last() =~= lines);
}

/// The most one line can cost, in microcents: four token counts below 2^64,
/// at most 7500 cents per million tokens each.
pub open spec fn max_line_cost() -> nat {
    30_000 * 0x1_0000_0000_0000_0000
}

proof fn lemma_usage_cost_bound(u: TokenUsage, p: ModelPricing)
    requires
        p.input <= 7500,
        p.output <= 7500,
        p.cache_read <= 7500,
        p.cache_write <= 7500,
    ensures
        usage_cost(u, p) <= max_line_cost(),
{
    let a = count_or_zero(u.input_tokens);
    let b = count_or_zero(u.output_tokens);
    let c = count_or_zero(u.cache_read_input_tokens);
    let d = count_or_zero(u.cache_creation_input_tokens);
    assert(a * (p.input as nat) + b * (p.output as nat) + c * (p.cache_read as nat) + d * (p.cache_write as nat)
        <= 30_000 * 0x1_0000_0000_0000_0000) by (nonlinear_arith)
        requires
            a < 0x1_0000_0000_0000_0000,
            b < 0x1_0000_0000_0000_0000,
            c < 0x1_0000_0000_0000_0000,
            d < 0x1_0000_0000_0000_0000,
            p.input <= 7500,
            p.output <= 7500,
            p.cache_read <= 7500,
            p.cache_write <= 7500;
}

proof fn lemma_line_cost_bound(line: Line, cutoff: Timestamp)
    ensures
        line_cost_since(line, cutoff) <= max_line_cost(),
{
    if let Some(e) = line {
        if let Some(m) = e.message {
            if let Some(u) = m.usage {
                lemma_usage_cost_bound(u, pricing_for(model_name(m)));
            }
        }
    }
}

proof fn lemma_cost_since_bound(lines: Seq<Line>, cutoff: Timestamp)
    ensures
        cost_since(lines, cutoff) <= lines.len() * max_line_cost(),
    decreases lines.len(),
{
    if lines.len() > 0 {
        lemma_cost_since_bound(lines.drop_last(), cutoff);
        lemma_line_cost_bound(lines.last(), cutoff);
        assert((lines.len() - 1) * max_line_cost() + max_line_cost() == lines.len() * max_line_cost()) by (nonlinear_arith);
    }
}

/// A transcript of at most 2^48 lines costs less than `u128::MAX`
/// microcents, so `sum_cost_since` reports its cost exactly.
pub proof fn lemma_sum_cost_since_exact(lines: Seq<Line>, cutoff: Timestamp)
    requires
        lines.len() <= 0x1_0000_0000_0000,
    ensures
        cost_since(lines, cutoff) <= u128::MAX,
        saturate(cost_since(lines, cutoff)) == cost_since(lines, cutoff),
{
    lemma_cost_since_bound(lines, cutoff);
    assert(lines.len() * max_line_cost() <= 0x1_0000_0000_0000 * max_line_cost()) by (nonlinear_arith)
        requires lines.len() <= 0x1_0000_0000_0000;
}

/// The reported costs of two transcripts add up to that of the two joined,
/// where the joined transcript has at most 2^48 lines.
pub proof fn lemma_sum_cost_since_concat(a: Seq<Line>, b: Seq<Line>, cutoff: Timestamp)
    requires
        a.len() + b.len() <= 0x1_0000_0000_0000,
    ensures
        saturate(cost_since(a + b, cutoff)) == saturate(cost_since(a, cutoff)) + saturate(cost_since(b, cutoff)),
{
    lemma_cost_since_concat(a, b, cutoff);
    lemma_sum_cost_since_exact(a + b, cutoff);
    lemma_sum_cost_since_exact(a, cutoff);
    lemma_sum_cost_since_exact(b, cutoff);
}

/// A line that is not an assistant message at or after the cutoff, or that
/// records no usage, adds nothing to the estimated cost; an assistant message
/// at or after the cutoff that records usage `u` adds the cost of `u` priced
/// by its model, a message without a model name being priced as Sonnet 4.
pub proof fn lemma_cost_since_push(lines: Seq<Line>, line: Line, cutoff: Timestamp)
    ensures
        cost_since(Seq::<Line>::empty(), cutoff) == 0,
        match line {
            Some(e) => match (e.timestamp, e.message) {
                (Some(t), Some(m)) => match m.usage {
                    Some(u) => if e.entry_type@ == "assistant"@ && at_or_after(t, cutoff) {
                        cost_since(lines.push(line), cutoff) == cost_since(lines, cutoff) + usage_cost(
                            u,
                            match m.model {
                                Some(name) => pricing_for(name@),
                                None => ModelPricing { input: 300, output: 1500, cache_read: 30, cache_write: 375 },
                            },
                        )
                    } else {
                        cost_since(lines.push(line), cutoff) == cost_since(lines, cutoff)
                    },
                    None => cost_since(lines.push(line), cutoff) == cost_since(lines, cutoff),
                },
                _ => cost_since(lines.push(line), cutoff) == cost_since(lines, cutoff),
            },
            None => cost_since(lines.push(line), cutoff) == cost_since(lines, cutoff),
        },
{
    assert(lines.push(line).drop_last() =~= lines);
    lemma_empty_model_is_sonnet_4();
}

proof fn lemma_empty_model_is_sonnet_4()
    ensures
        pricing_for(Seq::empty()) == (ModelPricing { input: 300, output: 1500, cache_read: 30, cache_write: 375 }),
{
    reveal_strlit("opus-4");
    reveal_strlit("sonnet-3-5");
    reveal_strlit("sonnet-3.5");
    reveal_strlit("haiku-4-5");
    reveal_strlit("haiku-4.5");
    reveal_strlit("haiku-3");
    crate::pricing::lemma_no_family_name_priced_as_sonnet_4(Seq::empty());
}

fn line_cost(line: &Line, cutoff: &Timestamp) -> (c: u128)
    ensures
        c == line_cost_since(*line, *cutoff),
{
    match line {
        None => 0,
        Some(e) => {
            if !entry_is_assistant(e) {
                return 0;
            }
            match &e.timestamp {
                None => 0,
                Some(ts) => {
                    if !is_at_or_after(ts, cutoff) {
                        return 0;
                    }
                    match &e.message {
                        None => 0,
                        Some(m) => match &m.usage {
                            None => 0,
                            Some(u) => {
                                let pricing = match &m.model {
                                    Some(name) => ModelPricing::for_model(name.as_str()),
                                    None => {
                                        proof {
                                            reveal_strlit("");
                                            assert(""@ =~= Seq::<char>::empty());
                                        }
                                        ModelPricing::for_model("")
                                    },
                                };
                                u.cost(pricing)
                            },
                        },
                    }
                },
            }
        },
    }
}

/// Estimates the cost of all assistant messages at or after `cutoff`, in
/// microcents (10^-8 USD), with this library's pricing table. Lines that did
/// not parse are skipped. A total beyond `u128::MAX` is reported as `u128::MAX`.
pub fn sum_cost_since(lines: &Vec<Line>, cutoff: &Timestamp) -> (c: u128)
    ensures
        c == saturate(cost_since(lines@, *cutoff)),
{
    let mut total: u128 = 0;
    let mut i: usize = 0;
    while i < lines.len()
        invariant
            i <= lines@.len(),
            total == saturate(cost_since(lines@.subrange(0, i as int), *cutoff)),
        decreases lines@.len() - i,
    {
        assert(lines@.subrange(0, i + 1).drop_last() =~= lines@.subrange(0, i as int));
        let c = line_cost(&lines[i], cutoff);
        total = total.saturating_add(c);
        i = i + 1;
    }
    assert(lines@.subrange(0, lines@.len() as int) =~= lines@);
    total
}

// ---------------------------------------------------------------- response times

/// Every timestamp among `lines` is one that chrono represents.
pub open spec fn line_timestamp_valid(line: Line) -> bool {
    match line {
        Some(e) => match e.timestamp {
            Some(t) => t.valid(),
            None => true,
        },
        None => true,
    }
}

pub open spec fn timestamps_valid(lines: Seq<Line>) -> bool {
    forall|i: int| 0 <= i < lines.len() ==> #[trigger] line_timestamp_valid(lines[i])
}

/// The response times, in milliseconds, of `lines`, when the last user
/// message not yet answered was sent at `pending`: each assistant message
/// answers the user message before it, if both carry a timestamp, and clears
/// it; the first line that did not parse ends the transcript.
pub open spec fn response_times_from(lines: Seq<Line>, pending: Option<Timestamp>) -> Seq<i64>
    decreases lines.len(),
{
    if lines.len() == 0 {
        Seq::empty()
    } else {
        match lines[0] {
            None => Seq::empty(),
            Some(e) => {
                if is_user(e) {
                    response_times_from(lines.drop_first(), e.timestamp)
                } else if is_assistant(e) {
                    match (pending, e.timestamp) {
                        (Some(u), Some(a)) => seq![millis_between(a, u) as i64]
                            + response_times_from(lines.drop_first(), None),
                        _ => response_times_from(lines.drop_first(), None),
                    }
                } else {
                    response_times_from(lines.drop_first(), pending)
                }
            },
        }
    }
}

/// The response time of each user message that an assistant message answers,
/// in transcript order.
pub open spec fn response_times(lines: Seq<Line>) -> Seq<i64> {
    response_times_from(lines, None)
}

/// Pairs each user message with the next assistant response, and returns the
/// milliseconds between them, in transcript order.
pub fn collect_response_times(lines: &Vec<Line>) -> (times: Vec<i64>)
    requires
        timestamps_valid(lines@),
    ensures
        times@ == response_times(lines@),
{
    let mut times: Vec<i64> = Vec::new();
    let mut pending: Option<Timestamp> = None;
    let mut i: usize = 0;
    assert(lines@.skip(0) =~= lines@);
    while i < lines.len()
        invariant
            i <= lines@.len(),
            timestamps_valid(lines@),
            match pending {
                Some(t) => t.valid(),
                None => true,
            },
            times@ + response_times_from(lines@.skip(i as int), pending) == response_times(lines@),
        decreases lines@.len() - i,
    {
        let ghost rest = lines@.skip(i as int);
        assert(rest[0] == lines@[i as int]);
        assert(rest.drop_first() =~= lines@.skip(i + 1));
        assert(line_timestamp_valid(lines@[i as int]));
        match &lines[i] {
            None => {
                assert(response_times_from(rest, pending) =~= Seq::<i64>::empty());
                assert(times@ + Seq::<i64>::empty() =~= times@);
                return times;
            },
            Some(e) => {
                if entry_is_user(e) {
                    pending = e.timestamp;
                } else if entry_is_assistant(e) {
                    match (pending, e.timestamp) {
                        (Some(u), Some(a)) => {
                            let ms = chrono_millis_between(&a, &u);
                            let ghost before = times@;
                            times.push(ms);
                            assert(before + (seq![ms] + response_times_from(lines@.skip(i + 1), None))
                                =~= times@ + response_times_from(lines@.skip(i + 1), None));
                        },
                        _ => {},
                    }
                    pending = None;
                }
            },
        }
        i = i + 1;
    }
    assert(lines@.skip(i as int) =~= Seq::<Line>::empty());
    assert(times@ + Seq::<i64>::empty() =~= times@);
    times
}

/// The number of lines before the first that did not parse.
pub open spec fn parsed_len(lines: Seq<Line>) -> int
    decreases lines.len(),
{
    if lines.len() == 0 {
        0
    } else if lines[0] is None {
        0
    } else {
        1 + parsed_len(lines.drop_first())
    }
}

proof fn lemma_parsed_len(lines: Seq<Line>)
    ensures
        0 <= parsed_len(lines) <= lines.len(),
        forall|i: int| 0 <= i < parsed_len(lines) ==> lines[i] is Some,
        parsed_len(lines) < lines.len() ==> lines[parsed_len(lines)] is None,
    decreases lines.len(),
{
    if lines.len() > 0 && lines[0] is Some {
        let rest = lines.drop_first();
        lemma_parsed_len(rest);
        assert forall|i: int| 0 <= i < parsed_len(lines) implies lines[i] is Some by {
            if i > 0 {
                assert(lines[i] == rest[i - 1]);
            }
        }
        if parsed_len(lines) < lines.len() {
            assert(lines[parsed_len(lines)] == rest[parsed_len(rest)]);
        }
    }
}

/// The position of the last user or assistant message before position `k`,
/// or -1 where there is none.
pub open spec fn last_message_before(lines: Seq<Line>, k: int) -> int
    decreases k,
{
    if k <= 0 {
        -1
    } else if is_message(lines[k - 1]) {
        k - 1
    } else {
        last_message_before(lines, k - 1)
    }
}

/// `last_message_before` is the last message before `k`: none lies after it.
pub proof fn lemma_last_message_before(lines: Seq<Line>, k: int)
    requires
        0 <= k <= lines.len(),
    ensures
        ({
            let j = last_message_before(lines, k);
            ||| j == -1 && forall|m: int| 0 <= m < k ==> !is_message(#[trigger] lines[m])
            ||| 0 <= j < k && is_message(lines[j]) && forall|m: int| j < m < k ==> !is_message(#[trigger] lines[m])
        }),
    decreases k,
{
    if k > 0 {
        lemma_last_message_before(lines, k - 1);
    }
}

/// The response time that the line at position `k` records: where it is an
/// assistant message with a timestamp, before the first line that did not
/// parse, and the last message before it is a user message with a timestamp,
/// the milliseconds between the two.
pub open spec fn response_time_at(lines: Seq<Line>, k: int) -> Option<i64> {
    if 0 <= k < parsed_len(lines) {
        match lines[k] {
            Some(e) => {
                if !is_assistant(e) {
                    None
                } else {
                    match e.timestamp {
                        Some(a) => {
                            let j = last_message_before(lines, k);
                            if j < 0 {
                                None
                            } else {
                                match lines[j] {
                                    Some(u) => {
                                        if !is_user(u) {
                                            None
                                        } else {
                                            match u.timestamp {
                                                Some(t) => Some(millis_between(a, t) as i64),
                                                None => None,
                                            }
                                        }
                                    },
                                    None => None,
                                }
                            }
                        },
                        None => None,
                    }
                }
            },
            None => None,
        }
    } else {
        None
    }
}

/// The response times recorded at the positions before `n`, in order.
pub open spec fn responses_before(lines: Seq<Line>, n: int) -> Seq<i64>
    decreases n,
{
    if n <= 0 {
        Seq::empty()
    } else {
        responses_before(lines, n - 1) + match response_time_at(lines, n - 1) {
            Some(t) => seq![t],
            None => Seq::<i64>::empty(),
        }
    }
}

/// The assistant message at `k` answers the user message at `j`: both carry a
/// timestamp, both lie before the first line that did not parse, and no user
/// or assistant message lies between them.
pub open spec fn answers(lines: Seq<Line>, j: int, k: int) -> bool {
    &&& 0 <= j < k < parsed_len(lines)
    &&& lines[j] matches Some(u) && u.entry_type@ == "user"@ && u.timestamp is Some
    &&& lines[k] matches Some(a) && a.entry_type@ == "assistant"@ && a.timestamp is Some
    &&& forall|m: int| j < m < k ==> !(#[trigger] lines[m] matches Some(e) && (e.entry_type@ == "user"@ || e.entry_type@ == "assistant"@))
}

/// The user message that the last message before `i` leaves unanswered.
spec fn pending_at(lines: Seq<Line>, i: int) -> Option<Timestamp> {
    let j = last_message_before(lines, i);
    if j >= 0 {
        match lines[j] {
            Some(u) => if is_user(u) { u.timestamp } else { None },
            None => None,
        }
    } else {
        None
    }
}

proof fn lemma_user_is_not_assistant(e: TranscriptEntry)
    ensures
        !(is_user(e) && is_assistant(e)),
{
    reveal_strlit("user");
    reveal_strlit("assistant");
    assert("user"@.len() != "assistant"@.len());
}

proof fn lemma_response_prefix(lines: Seq<Line>, i: int)
    requires
        0 <= i <= parsed_len(lines),
    ensures
        response_times(lines) == responses_before(lines, i)
            + response_times_from(lines.skip(i), pending_at(lines, i)),
    decreases i,
{
    lemma_parsed_len(lines);
    if i == 0 {
        assert(lines.skip(0) =~= lines);
        assert(responses_before(lines, 0) + response_times(lines) =~= response_times(lines));
    } else {
        lemma_response_prefix(lines, i - 1);
        let rest = lines.skip(i - 1);
        assert(rest[0] == lines[i - 1]);
        assert(rest.drop_first() =~= lines.skip(i));
        let e = lines[i - 1]->Some_0;
        lemma_user_is_not_assistant(e);
        let before = responses_before(lines, i - 1);
        let tail = response_times_from(lines.skip(i), pending_at(lines, i));
        if is_user(e) {
            assert(before + Seq::<i64>::empty() =~= before);
        } else if is_assistant(e) {
            match (pending_at(lines, i - 1), e.timestamp) {
                (Some(u), Some(a)) => {
                    assert(before + (seq![millis_between(a, u) as i64] + tail)
                        =~= (before + seq![millis_between(a, u) as i64]) + tail);
                },
                _ => {
                    assert(before + Seq::<i64>::empty() =~= before);
                },
            }
        } else {
            assert(before + Seq::<i64>::empty() =~= before);
        }
    }
}

/// Response times pair messages exactly as described: in transcript order,
/// one for each assistant message that answers a user message, and the one at
/// position `k` is the time from the user message it answers.
pub proof fn lemma_response_times_pair_answers(lines: Seq<Line>)
    ensures
        response_times(lines) == responses_before(lines, parsed_len(lines)),
        response_times(lines).to_multiset() == responses_before(lines, parsed_len(lines)).to_multiset(),
        forall|k: int| (#[trigger] response_time_at(lines, k)) is Some <==> exists|j: int| answers(lines, j, k),
        forall|j: int, k: int| #[trigger] answers(lines, j, k) ==> response_time_at(lines, k) == Some(
            millis_between(lines[k]->Some_0.timestamp->Some_0, lines[j]->Some_0.timestamp->Some_0) as i64,
        ),
{
    lemma_parsed_len(lines);
    let n = parsed_len(lines);
    lemma_response_prefix(lines, n);
    if n < lines.len() {
        assert(lines.skip(n)[0] == lines[n]);
    } else {
        assert(lines.skip(n) =~= Seq::<Line>::empty());
    }
    assert(responses_before(lines, n) + Seq::<i64>::empty() =~= responses_before(lines, n));
    assert forall|k: int| (#[trigger] response_time_at(lines, k)) is Some implies exists|j: int| answers(lines, j, k) by {
        lemma_last_message_before(lines, k);
        let j = last_message_before(lines, k);
        assert(answers(lines, j, k));
    }
    assert forall|j: int, k: int| #[trigger] answers(lines, j, k) implies response_time_at(lines, k) == Some(
        millis_between(lines[k]->Some_0.timestamp->Some_0, lines[j]->Some_0.timestamp->Some_0) as i64,
    ) by {
        lemma_last_message_before(lines, k);
        let l = last_message_before(lines, k);
        assert(is_message(lines[j]));
        if l == -1 {
            assert(!is_message(lines[j]));
        } else if l < j {
            assert(!is_message(lines[j]));
        } else if l > j {
            assert(!is_message(lines[l]));
        }
    }
}

/// The ascending order on response times.
pub open spec fn ascending() -> spec_fn(i64, i64) -> bool {
    |a: i64, b: i64| a <= b
}

pub proof fn lemma_ascending_total()
    ensures
        total_ordering(ascending()),
{
}

/// The times in `s` never decrease.
pub open spec fn is_ascending(s: Seq<i64>) -> bool {
    forall|i: int, j: int| 0 <= i < j < s.len() ==> s[i] <= s[j]
}

proof fn lemma_ascending_is_sorted(s: Seq<i64>)
    requires
        is_ascending(s),
    ensures
        sorted_by(s, ascending()),
{
    assert forall|i: int, j: int| 0 <= i < j < s.len() implies #[trigger] ascending()(s[i], s[j]) by {
        assert(s[i] <= s[j]);
    }
}

/// Sorts the times in ascending order, by inserting each into its place.
pub fn sort_ascending(v: &Vec<i64>) -> (out: Vec<i64>)
    ensures
        out@.to_multiset() == v@.to_multiset(),
        sorted_by(out@, ascending()),
{
    broadcast use vstd::seq_lib::group_to_multiset_ensures;
    let mut out: Vec<i64> = Vec::new();
    let mut i: usize = 0;
    while i < v.len()
        invariant
            i <= v@.len(),
            out@.to_multiset() == v@.subrange(0, i as int).to_multiset(),
            is_ascending(out@),
        decreases v@.len() - i,
    {
        let x = v[i];
        let mut k: usize = 0;
        while k < out.len() && out[k] <= x
            invariant
                k <= out@.len(),
                forall|m: int| 0 <= m < k ==> out@[m] <= x,
            decreases out@.len() - k,
        {
            k = k + 1;
        }
        let ghost before = out@;
        assert(forall|m: int| k <= m < before.len() ==> x < before[m]) by {
            if k < before.len() {
                assert(x < before[k as int]);
            }
        }
        out.insert(k, x);
        proof {
            vstd::seq_lib::to_multiset_insert(before, k as int, x);
            assert(v@.subrange(0, i + 1) =~= v@.subrange(0, i as int).push(x));
            vstd::seq_lib::to_multiset_build(v@.subrange(0, i as int), x);
            assert forall|a: int, b: int| 0 <= a < b < out@.len() implies out@[a] <= out@[b] by {
                if b < k {
                } else if b == k {
                } else if a < k {
                    assert(out@[b] == before[b - 1]);
                } else if a == k {
                    assert(out@[b] == before[b - 1]);
                } else {
                    assert(out@[a] == before[a - 1] && out@[b] == before[b - 1]);
                }
            }
        }
        i = i + 1;
    }
    assert(v@.subrange(0, v@.len() as int) =~= v@);
    proof {
        lemma_ascending_is_sorted(out@);
    }
    out
}

/// The position of percentile `p` among `n` sorted values: the `n * p / 100`-th
/// value (counting from one), or the first or last value where that is out of range.
pub open spec fn percentile_index(n: int, p: int) -> int {
    let k = n * p / 100;
    let j = if k >= 1 { k - 1 } else { 0 };
    if j <= n - 1 { j } else { n - 1 }
}

/// The percentiles reported for `n` response times: the median, plus the 90th
/// from ten times on, plus the 99th from a hundred on; none without times.
pub open spec fn reported_levels(n: int) -> Seq<int> {
    if n >= 100 {
        seq![50, 90, 99]
    } else if n >= 10 {
        seq![50, 90]
    } else if n >= 1 {
        seq![50]
    } else {
        Seq::empty()
    }
}

/// The reported percentiles of the ascending sequence `sorted`.
pub open spec fn percentiles_of(sorted: Seq<i64>) -> Seq<i64> {
    reported_levels(sorted.len() as int).map_values(
        |p: int| sorted[percentile_index(sorted.len() as int, p)],
    )
}

/// The response times of `lines` in ascending order.
pub open spec fn sorted_response_times(lines: Seq<Line>) -> Seq<i64> {
    response_times(lines).sort_by(ascending())
}

fn percentile_at(sorted: &Vec<i64>, p: u128) -> (v: i64)
    requires
        1 <= sorted@.len(),
        p <= 100,
    ensures
        v == sorted@[percentile_index(sorted@.len() as int, p as int)],
{
    let n = sorted.len() as u128;
    assert(n * p <= 0x1_0000_0000_0000_0000 * 100) by (nonlinear_arith)
        requires n <= 0xffff_ffff_ffff_ffffu128, p <= 100;
    let k = n * p / 100;
    let j = if k >= 1 { k - 1 } else { 0 };
    let idx = if j <= n - 1 { j } else { n - 1 };
    sorted[idx as usize]
}

/// Response time percentiles (user message to assistant response), in
/// milliseconds: p50, plus p90 with at least 10 responses, plus p99 with at
/// least 100; empty without any response.
pub fn response_time_percentiles(lines: &Vec<Line>) -> (r: Vec<i64>)
    requires
        timestamps_valid(lines@),
    ensures
        r@ == percentiles_of(sorted_response_times(lines@)),
        response_times(lines@).len() == 0 ==> r@.len() == 0,
        1 <= response_times(lines@).len() < 10 ==> r@.len() == 1,
        10 <= response_times(lines@).len() < 100 ==> r@.len() == 2,
        100 <= response_times(lines@).len() ==> r@.len() == 3,
{
    let unsorted_times = collect_response_times(lines);
    let ghost unsorted = unsorted_times@;
    let times = sort_ascending(&unsorted_times);
    proof {
        broadcast use vstd::seq_lib::group_to_multiset_ensures;
        assert(times@.to_multiset().len() == unsorted.to_multiset().len());
        lemma_ascending_total();
        unsorted.lemma_sort_by_ensures(ascending());
        lemma_sorted_unique(times@, unsorted.sort_by(ascending()), ascending());
    }
    let n = times.len();
    let mut r: Vec<i64> = Vec::new();
    if n == 0 {
        assert(r@ =~= percentiles_of(times@));
        return r;
    }
    r.push(percentile_at(&times, 50));
    if n >= 10 {
        r.push(percentile_at(&times, 90));
    }
    if n >= 100 {
        r.push(percentile_at(&times, 99));
    }
    assert(r@ =~= percentiles_of(times@));
    r
}

/// The reported percentiles never decrease: p50 <= p90 <= p99.
pub proof fn lemma_percentiles_ascending(lines: Seq<Line>)
    ensures
        ({
            let p = percentiles_of(sorted_response_times(lines));
            forall|i: int, j: int| 0 <= i < j < p.len() ==> p[i] <= p[j]
        }),
{
    let sorted = sorted_response_times(lines);
    let n = sorted.len() as int;
    lemma_ascending_total();
    response_times(lines).lemma_sort_by_ensures(ascending());
    let p = percentiles_of(sorted);
    assert forall|i: int, j: int| 0 <= i < j < p.len() implies p[i] <= p[j] by {
        let li = reported_levels(n)[i];
        let lj = reported_levels(n)[j];
        assert(li <= lj);
        assert(n * li / 100 <= n * lj / 100) by (nonlinear_arith)
            requires 0 <= li <= lj, n >= 0;
        let a = percentile_index(n, li);
        let b = percentile_index(n, lj);
        assert(0 <= a <= b < n);
        if a < b {
            assert(ascending()(sorted[a], sorted[b]));
        }
    }
}

/// The reported percentiles, counted from the smallest response time (one
/// being the smallest): p50 is the (n/2)-th, p90 the (9n/10)-th and p99 the
/// (99n/100)-th of the n response times, the first where n/2 is zero; p50
/// alone is reported below 10 responses, p99 only from 100 on.
pub proof fn lemma_percentile_positions(lines: Seq<Line>)
    ensures
        ({
            let s = sorted_response_times(lines);
            let n = s.len() as int;
            let p = percentiles_of(s);
            &&& n == response_times(lines).len()
            &&& n == 0 ==> p.len() == 0
            &&& 1 <= n < 10 ==> p.len() == 1
            &&& 10 <= n < 100 ==> p.len() == 2
            &&& 100 <= n ==> p.len() == 3
            &&& n >= 1 ==> p[0] == s[if n / 2 >= 1 { n / 2 - 1 } else { 0 }]
            &&& n >= 10 ==> p[1] == s[n * 9 / 10 - 1]
            &&& n >= 100 ==> p[2] == s[n * 99 / 100 - 1]
        }),
{
    broadcast use vstd::seq_lib::group_to_multiset_ensures;
    lemma_ascending_total();
    response_times(lines).lemma_sort_by_ensures(ascending());
    let s = sorted_response_times(lines);
    assert(s.to_multiset().len() == response_times(lines).to_multiset().len());
}

/// Every reported percentile is one of the measured response times.
pub proof fn lemma_percentiles_are_response_times(lines: Seq<Line>)
    ensures
        ({
            let p = percentiles_of(sorted_response_times(lines));
            forall|k: int| 0 <= k < p.len() ==> response_times(lines).contains(#[trigger] p[k])
        }),
{
    let sorted = sorted_response_times(lines);
    let n = sorted.len() as int;
    lemma_ascending_total();
    response_times(lines).lemma_sort_by_ensures(ascending());
    let p = percentiles_of(sorted);
    assert forall|k: int| 0 <= k < p.len() implies response_times(lines).contains(#[trigger] p[k]) by {
        let idx = percentile_index(n, reported_levels(n)[k]);
        assert(0 <= idx < n);
        assert(sorted.contains(sorted[idx]));
    }
}

/// The percentiles line: each text in its color (green, then yellow, then
/// red), followed by `s` and the reset code, joined by `/`.
pub proof fn lemma_percentiles_line_colors(seconds: Seq<Seq<char>>)
    requires
        1 <= seconds.len() <= 3,
    ensures
        seconds.len() == 1 ==> percentiles_line(seconds) == "\x1b[32m"@ + seconds[0] + "s"@ + "\x1b[0m"@,
        seconds.len() == 2 ==> percentiles_line(seconds) == "\x1b[32m"@ + seconds[0] + "s"@ + "\x1b[0m"@ + "/"@
            + "\x1b[33m"@ + seconds[1] + "s"@ + "\x1b[0m"@,
        seconds.len() == 3 ==> percentiles_line(seconds) == "\x1b[32m"@ + seconds[0] + "s"@ + "\x1b[0m"@ + "/"@
            + "\x1b[33m"@ + seconds[1] + "s"@ + "\x1b[0m"@ + "/"@ + "\x1b[31m"@ + seconds[2] + "s"@
            + "\x1b[0m"@,
{
}

/// Text colors for the percentiles: green for p50, yellow for p90, red for p99.
pub const GREEN: &'static str = "\x1b[32m";
pub const YELLOW: &'static str = "\x1b[33m";
pub const RED: &'static str = "\x1b[31m";
pub const RESET: &'static str = "\x1b[0m";

/// One percentile: its number of seconds in `color`, with the unit `s`.
pub open spec fn colored_seconds(color: Seq<char>, seconds: Seq<char>) -> Seq<char> {
    color + seconds + "s"@ + RESET@
}

/// The percentiles line for the given texts of p50 [, p90 [, p99]] in seconds.
pub open spec fn percentiles_line(seconds: Seq<Seq<char>>) -> Seq<char> {
    let p50 = colored_seconds(GREEN@, seconds[0]);
    if seconds.len() == 1 {
        p50
    } else if seconds.len() == 2 {
        p50 + "/"@ + colored_seconds(YELLOW@, seconds[1])
    } else {
        p50 + "/"@ + colored_seconds(YELLOW@, seconds[1]) + "/"@ + colored_seconds(RED@, seconds[2])
    }
}

fn append_colored(out: &mut String, color: &str, seconds: &String)
    ensures
        final(out)@ == old(out)@ + colored_seconds(color@, seconds@),
{
    out.append(color);
    out.append(seconds.as_str());
    out.append("s");
    out.append(RESET);
    assert(final(out)@ =~= old(out)@ + colored_seconds(color@, seconds@));
}

/// Colors and joins the texts of the reported percentiles, as
/// `p50` or `p50/p90` or `p50/p90/p99`, each followed by `s`.
pub fn render_percentiles(seconds: &Vec<String>) -> (line: String)
    requires
        1 <= seconds@.len() <= 3,
    ensures
        line@ == percentiles_line(seconds@.map_values(|s: String| s@)),
{
    let ghost texts = seconds@.map_values(|s: String| s@);
    let mut line = String::new();
    append_colored(&mut line, GREEN, &seconds[0]);
    if seconds.len() >= 2 {
        line.append("/");
        append_colored(&mut line, YELLOW, &seconds[1]);
    }
    if seconds.len() >= 3 {
        line.append("/");
        append_colored(&mut line, RED, &seconds[2]);
    }
    assert(line@ =~= percentiles_line(texts));
    line
}

} // verus!
