//! Per-model token pricing and the cost of one API call's token usage.
//!
//! Prices are held exactly, in US cents per million tokens. A cost is then
//! `tokens * price` in units of 10^-8 US dollars ("microcents"): one token
//! at one cent per million tokens costs one microcent.

use vstd::prelude::*;
use crate::text::{contains_seq, str_contains};

verus! {

/// Pricing per million tokens for a model, in US cents.
/// These are estimates based on published pricing, not from an official API.
#[derive(Clone, Copy, Debug, PartialEq, Eq)]
pub struct ModelPricing {
    pub input: u32,
    pub output: u32,
    pub cache_read: u32,
    pub cache_write: u32,
}

impl ModelPricing {
    /// Opus 4.5.
    #[verifier::allow_in_spec]
    pub fn opus_4_5() -> ModelPricing
        returns
            (ModelPricing { input: 500, output: 2500, cache_read: 50, cache_write: 625 }),
    {
        ModelPricing { input: 500, output: 2500, cache_read: 50, cache_write: 625 }
    }

    /// Opus 4 and 4.1.
    #[verifier::allow_in_spec]
    pub fn opus_4() -> ModelPricing
        returns
            (ModelPricing { input: 1500, output: 7500, cache_read: 150, cache_write: 1875 }),
    {
        ModelPricing { input: 1500, output: 7500, cache_read: 150, cache_write: 1875 }
    }

    /// Sonnet 4; also the fallback for unknown models.
    #[verifier::allow_in_spec]
    pub fn sonnet_4() -> ModelPricing
        returns
            (ModelPricing { input: 300, output: 1500, cache_read: 30, cache_write: 375 }),
    {
        ModelPricing { input: 300, output: 1500, cache_read: 30, cache_write: 375 }
    }

    /// Haiku 4.5.
    #[verifier::allow_in_spec]
    pub fn haiku_4_5() -> ModelPricing
        returns
            (ModelPricing { input: 100, output: 500, cache_read: 10, cache_write: 125 }),
    {
        ModelPricing { input: 100, output: 500, cache_read: 10, cache_write: 125 }
    }

    /// Haiku 3.5.
    #[verifier::allow_in_spec]
    pub fn haiku_3_5() -> ModelPricing
        returns
            (ModelPricing { input: 80, output: 400, cache_read: 8, cache_write: 100 }),
    {
        ModelPricing { input: 80, output: 400, cache_read: 8, cache_write: 100 }
    }

    /// Sonnet 3.5.
    #[verifier::allow_in_spec]
    pub fn sonnet_3_5() -> ModelPricing
        returns
            (ModelPricing { input: 300, output: 1500, cache_read: 30, cache_write: 375 }),
    {
        ModelPricing { input: 300, output: 1500, cache_read: 30, cache_write: 375 }
    }

    /// Haiku 3.
    #[verifier::allow_in_spec]
    pub fn haiku_3() -> ModelPricing
        returns
            (ModelPricing { input: 25, output: 125, cache_read: 3, cache_write: 30 }),
    {
        ModelPricing { input: 25, output: 125, cache_read: 3, cache_write: 30 }
    }
}

/// The pricing that `ModelPricing::for_model` picks for a model identifier:
/// the first family whose name occurs in the identifier, in this order, and
/// Sonnet 4 pricing when none does.
pub open spec fn pricing_for(model: Seq<char>) -> ModelPricing {
    if contains_seq(model, "opus-4-5"@) || contains_seq(model, "opus-4.5"@) {
        ModelPricing::opus_4_5()
    } else if contains_seq(model, "opus-4"@) {
        ModelPricing::opus_4()
    } else if contains_seq(model, "sonnet-3-5"@) || contains_seq(model, "sonnet-3.5"@) {
        ModelPricing::sonnet_3_5()
    } else if contains_seq(model, "haiku-4-5"@) || contains_seq(model, "haiku-4.5"@) {
        ModelPricing::haiku_4_5()
    } else if contains_seq(model, "haiku-3-5"@) || contains_seq(model, "haiku-3.5"@) {
        ModelPricing::haiku_3_5()
    } else if contains_seq(model, "haiku-3"@) {
        ModelPricing::haiku_3()
    } else {
        ModelPricing::sonnet_4()
    }
}

/// No name of a model family with its own pricing occurs in the identifier.
pub open spec fn is_unknown_model(model: Seq<char>) -> bool {
    &&& !contains_seq(model, "opus-4-5"@)
    &&& !contains_seq(model, "opus-4.5"@)
    &&& !contains_seq(model, "opus-4"@)
    &&& !contains_seq(model, "sonnet-3-5"@)
    &&& !contains_seq(model, "sonnet-3.5"@)
    &&& !contains_seq(model, "haiku-4-5"@)
    &&& !contains_seq(model, "haiku-4.5"@)
    &&& !contains_seq(model, "haiku-3-5"@)
    &&& !contains_seq(model, "haiku-3.5"@)
    &&& !contains_seq(model, "haiku-3"@)
}

/// Unknown models are priced as Sonnet 4: $3 input, $15 output, $0.30 cache
/// read and $3.75 cache write per million tokens.
pub proof fn lemma_unknown_model_priced_as_sonnet_4(model: Seq<char>)
    requires
        is_unknown_model(model),
    ensures
        pricing_for(model) == ModelPricing::sonnet_4(),
        pricing_for(model) == (ModelPricing { input: 300, output: 1500, cache_read: 30, cache_write: 375 }),
{
}

/// An identifier in which no family name occurs is priced as Sonnet 4.
pub proof fn lemma_no_family_name_priced_as_sonnet_4(model: Seq<char>)
    requires
        !contains_seq(model, "opus-4"@),
        !contains_seq(model, "sonnet-3-5"@),
        !contains_seq(model, "sonnet-3.5"@),
        !contains_seq(model, "haiku-4-5"@),
        !contains_seq(model, "haiku-4.5"@),
        !contains_seq(model, "haiku-3"@),
    ensures
        pricing_for(model) == (ModelPricing { input: 300, output: 1500, cache_read: 30, cache_write: 375 }),
{
    lemma_contains_opus_4(model);
    lemma_contains_haiku_3(model);
}

/// An identifier that names Opus 4.5 is priced as Opus 4.5 ($5 input, $25
/// output, $0.50 cache read, $6.25 cache write per million tokens), although
/// it also names Opus 4.
pub proof fn lemma_opus_4_5_before_opus_4(model: Seq<char>)
    requires
        contains_seq(model, "opus-4-5"@) || contains_seq(model, "opus-4.5"@),
    ensures
        pricing_for(model) == ModelPricing::opus_4_5(),
        pricing_for(model) == (ModelPricing { input: 500, output: 2500, cache_read: 50, cache_write: 625 }),
{
}

/// An identifier that names Opus 4 (anywhere in it) but not Opus 4.5 is priced
/// as Opus 4: $15 input, $75 output, $1.50 cache read, $18.75 cache write.
pub proof fn lemma_opus_4_pricing(model: Seq<char>)
    requires
        contains_seq(model, "opus-4"@),
        !contains_seq(model, "opus-4-5"@),
        !contains_seq(model, "opus-4.5"@),
    ensures
        pricing_for(model) == (ModelPricing { input: 1500, output: 7500, cache_read: 150, cache_write: 1875 }),
{
}

/// An identifier that names Sonnet 3.5 and no Opus 4 model is priced as
/// Sonnet 3.5: $3 input, $15 output, $0.30 cache read, $3.75 cache write.
pub proof fn lemma_sonnet_3_5_pricing(model: Seq<char>)
    requires
        contains_seq(model, "sonnet-3-5"@) || contains_seq(model, "sonnet-3.5"@),
        !contains_seq(model, "opus-4"@),
    ensures
        pricing_for(model) == (ModelPricing { input: 300, output: 1500, cache_read: 30, cache_write: 375 }),
{
    lemma_contains_opus_4(model);
}

/// An identifier that names Haiku 4.5 and none of Opus 4 and Sonnet 3.5 is
/// priced as Haiku 4.5: $1 input, $5 output, $0.10 cache read, $1.25 cache write.
pub proof fn lemma_haiku_4_5_pricing(model: Seq<char>)
    requires
        contains_seq(model, "haiku-4-5"@) || contains_seq(model, "haiku-4.5"@),
        !contains_seq(model, "opus-4"@),
        !contains_seq(model, "sonnet-3-5"@),
        !contains_seq(model, "sonnet-3.5"@),
    ensures
        pricing_for(model) == (ModelPricing { input: 100, output: 500, cache_read: 10, cache_write: 125 }),
{
    lemma_contains_opus_4(model);
}

/// An identifier that names Haiku 3.5 and none of the families before it is
/// priced as Haiku 3.5: $0.80 input, $4 output, $0.08 cache read, $1 cache write.
pub proof fn lemma_haiku_3_5_pricing(model: Seq<char>)
    requires
        contains_seq(model, "haiku-3-5"@) || contains_seq(model, "haiku-3.5"@),
        !contains_seq(model, "opus-4"@),
        !contains_seq(model, "sonnet-3-5"@),
        !contains_seq(model, "sonnet-3.5"@),
        !contains_seq(model, "haiku-4-5"@),
        !contains_seq(model, "haiku-4.5"@),
    ensures
        pricing_for(model) == (ModelPricing { input: 80, output: 400, cache_read: 8, cache_write: 100 }),
{
    lemma_contains_opus_4(model);
}

/// An identifier that names Haiku 3 but not Haiku 3.5, and none of the
/// families before it, is priced as Haiku 3: $0.25 input, $1.25 output,
/// $0.03 cache read, $0.30 cache write.
pub proof fn lemma_haiku_3_pricing(model: Seq<char>)
    requires
        contains_seq(model, "haiku-3"@),
        !contains_seq(model, "haiku-3-5"@),
        !contains_seq(model, "haiku-3.5"@),
        !contains_seq(model, "opus-4"@),
        !contains_seq(model, "sonnet-3-5"@),
        !contains_seq(model, "sonnet-3.5"@),
        !contains_seq(model, "haiku-4-5"@),
        !contains_seq(model, "haiku-4.5"@),
    ensures
        pricing_for(model) == (ModelPricing { input: 25, output: 125, cache_read: 3, cache_write: 30 }),
{
    lemma_contains_opus_4(model);
}

/// A family name occurs in any identifier that holds it between two other
/// pieces of text.
pub proof fn lemma_contains_in_middle(x: Seq<char>, pat: Seq<char>, y: Seq<char>)
    ensures
        contains_seq(x + pat + y, pat),
{
    let s = x + pat + y;
    assert(s.subrange(x.len() as int, (x.len() + pat.len()) as int) =~= pat);
}

/// Where `big` holds `small` at `offset`, an identifier that contains `big`
/// contains `small`.
proof fn lemma_contains_part(model: Seq<char>, big: Seq<char>, small: Seq<char>, offset: int)
    requires
        0 <= offset,
        offset + small.len() <= big.len(),
        big.subrange(offset, offset + small.len()) == small,
        contains_seq(model, big),
    ensures
        contains_seq(model, small),
{
    let i = choose|i: int| 0 <= i && i + big.len() <= model.len() && #[trigger] model.subrange(i, i + big.len()) == big;
    assert(model.subrange(i + offset, i + offset + small.len()) =~= big.subrange(offset, offset + small.len()));
}

proof fn lemma_contains_opus_4(model: Seq<char>)
    ensures
        contains_seq(model, "opus-4-5"@) ==> contains_seq(model, "opus-4"@),
        contains_seq(model, "opus-4.5"@) ==> contains_seq(model, "opus-4"@),
{
    reveal_strlit("opus-4-5");
    reveal_strlit("opus-4.5");
    reveal_strlit("opus-4");
    if contains_seq(model, "opus-4-5"@) {
        assert("opus-4-5"@.subrange(0, 6) =~= "opus-4"@);
        lemma_contains_part(model, "opus-4-5"@, "opus-4"@, 0);
    }
    if contains_seq(model, "opus-4.5"@) {
        assert("opus-4.5"@.subrange(0, 6) =~= "opus-4"@);
        lemma_contains_part(model, "opus-4.5"@, "opus-4"@, 0);
    }
}

proof fn lemma_contains_haiku_3(model: Seq<char>)
    ensures
        contains_seq(model, "haiku-3-5"@) ==> contains_seq(model, "haiku-3"@),
        contains_seq(model, "haiku-3.5"@) ==> contains_seq(model, "haiku-3"@),
{
    reveal_strlit("haiku-3-5");
    reveal_strlit("haiku-3.5");
    reveal_strlit("haiku-3");
    if contains_seq(model, "haiku-3-5"@) {
        assert("haiku-3-5"@.subrange(0, 7) =~= "haiku-3"@);
        lemma_contains_part(model, "haiku-3-5"@, "haiku-3"@, 0);
    }
    if contains_seq(model, "haiku-3.5"@) {
        assert("haiku-3.5"@.subrange(0, 7) =~= "haiku-3"@);
        lemma_contains_part(model, "haiku-3.5"@, "haiku-3"@, 0);
    }
}

impl ModelPricing {
    /// Looks up pricing by model ID. Falls back to Sonnet 4 pricing for unknown models.
    pub fn for_model(model_id: &str) -> (p: ModelPricing)
        ensures
            p == pricing_for(model_id@),
    {
        if str_contains(model_id, "opus-4-5") || str_contains(model_id, "opus-4.5") {
            ModelPricing::opus_4_5()
        } else if str_contains(model_id, "opus-4") {
            ModelPricing::opus_4()
        } else if str_contains(model_id, "sonnet-3-5") || str_contains(model_id, "sonnet-3.5") {
            ModelPricing::sonnet_3_5()
        } else if str_contains(model_id, "haiku-4-5") || str_contains(model_id, "haiku-4.5") {
            ModelPricing::haiku_4_5()
        } else if str_contains(model_id, "haiku-3-5") || str_contains(model_id, "haiku-3.5") {
            ModelPricing::haiku_3_5()
        } else if str_contains(model_id, "haiku-3") {
            ModelPricing::haiku_3()
        } else {
            ModelPricing::sonnet_4()
        }
    }
}

/// Token usage from a single API call; an absent count is read as zero.
#[derive(Clone, Copy, Debug, PartialEq, Eq)]
pub struct TokenUsage {
    pub input_tokens: Option<u64>,
    pub output_tokens: Option<u64>,
    pub cache_creation_input_tokens: Option<u64>,
    pub cache_read_input_tokens: Option<u64>,
}

/// A token count, absent counts being zero.
pub open spec fn count_or_zero(c: Option<u64>) -> nat {
    match c {
        Some(n) => n as nat,
        None => 0,
    }
}

/// The cost of `u` under pricing `p`, in microcents (10^-8 USD).
pub open spec fn usage_cost(u: TokenUsage, p: ModelPricing) -> nat {
    count_or_zero(u.input_tokens) * (p.input as nat)
        + count_or_zero(u.output_tokens) * (p.output as nat)
        + count_or_zero(u.cache_read_input_tokens) * (p.cache_read as nat)
        + count_or_zero(u.cache_creation_input_tokens) * (p.cache_write as nat)
}

fn count_of(c: Option<u64>) -> (n: u64)
    ensures
        n == count_or_zero(c),
{
    match c {
        Some(n) => n,
        None => 0,
    }
}

proof fn lemma_term_bound(a: u64, b: u32)
    ensures
        0 <= (a as int) * (b as int) <= 0x1_0000_0000_0000_0000_0000_0000,
{
    assert(0 <= (a as int) * (b as int) <= 0x1_0000_0000_0000_0000 * 0x1_0000_0000) by (nonlinear_arith)
        requires a <= 0xffff_ffff_ffff_ffffu64, b <= 0xffff_ffffu32;
}

/// A usage that records no tokens costs nothing, under any pricing.
pub proof fn lemma_no_usage_costs_nothing(p: ModelPricing)
    ensures
        usage_cost(
            TokenUsage {
                input_tokens: None,
                output_tokens: None,
                cache_creation_input_tokens: None,
                cache_read_input_tokens: None,
            },
            p,
        ) == 0,
{
    vstd::arithmetic::mul::lemma_mul_basics(p.input as int);
    vstd::arithmetic::mul::lemma_mul_basics(p.output as int);
    vstd::arithmetic::mul::lemma_mul_basics(p.cache_read as int);
    vstd::arithmetic::mul::lemma_mul_basics(p.cache_write as int);
}

/// Each kind of token is charged at its own price, and the cost of a usage
/// is the sum over the kinds of its count times that price: input tokens at
/// the input price, output tokens at the output price, cache reads at the
/// cache-read price and cache writes (`cache_creation_input_tokens`) at the
/// cache-write price.
pub proof fn lemma_usage_cost_by_kind(u: TokenUsage, p: ModelPricing)
    ensures
        usage_cost(u, p) == usage_cost(TokenUsage { input_tokens: u.input_tokens, output_tokens: None, cache_creation_input_tokens: None, cache_read_input_tokens: None }, p)
            + usage_cost(TokenUsage { input_tokens: None, output_tokens: u.output_tokens, cache_creation_input_tokens: None, cache_read_input_tokens: None }, p)
            + usage_cost(TokenUsage { input_tokens: None, output_tokens: None, cache_creation_input_tokens: None, cache_read_input_tokens: u.cache_read_input_tokens }, p)
            + usage_cost(TokenUsage { input_tokens: None, output_tokens: None, cache_creation_input_tokens: u.cache_creation_input_tokens, cache_read_input_tokens: None }, p),
        forall|n: u64| usage_cost(TokenUsage { input_tokens: Some(n), output_tokens: None, cache_creation_input_tokens: None, cache_read_input_tokens: None }, p) == n * p.input,
        forall|n: u64| usage_cost(TokenUsage { input_tokens: None, output_tokens: Some(n), cache_creation_input_tokens: None, cache_read_input_tokens: None }, p) == n * p.output,
        forall|n: u64| usage_cost(TokenUsage { input_tokens: None, output_tokens: None, cache_creation_input_tokens: None, cache_read_input_tokens: Some(n) }, p) == n * p.cache_read,
        forall|n: u64| usage_cost(TokenUsage { input_tokens: None, output_tokens: None, cache_creation_input_tokens: Some(n), cache_read_input_tokens: None }, p) == n * p.cache_write,
{
    vstd::arithmetic::mul::lemma_mul_basics(p.input as int);
    vstd::arithmetic::mul::lemma_mul_basics(p.output as int);
    vstd::arithmetic::mul::lemma_mul_basics(p.cache_read as int);
    vstd::arithmetic::mul::lemma_mul_basics(p.cache_write as int);
}

impl TokenUsage {
    /// The cost of this usage under `pricing`, in microcents (10^-8 USD).
    pub fn cost(&self, pricing: ModelPricing) -> (c: u128)
        ensures
            c == usage_cost(*self, pricing),
    {
        let input = count_of(self.input_tokens) as u128;
        let output = count_of(self.output_tokens) as u128;
        let cache_read = count_of(self.cache_read_input_tokens) as u128;
        let cache_write = count_of(self.cache_creation_input_tokens) as u128;
        proof {
            lemma_term_bound(input as u64, pricing.input);
            lemma_term_bound(output as u64, pricing.output);
            lemma_term_bound(cache_read as u64, pricing.cache_read);
            lemma_term_bound(cache_write as u64, pricing.cache_write);
        }
        input * (pricing.input as u128) + output * (pricing.output as u128)
            + cache_read * (pricing.cache_read as u128) + cache_write * (pricing.cache_write as u128)
    }
}

} // verus!
