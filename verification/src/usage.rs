//! The `usage` object, and exact cost arithmetic over it.
//!
//! The three input classes partition `input_tokens`: read from cache, written to cache,
//! or neither. Cost is therefore a dot product of token counts with per-token rates,
//! computed in integer nanodollars so no rounding error can creep into a bill.
use vstd::prelude::*;

use crate::json;
use crate::json::{Json, JsonView, Number, NumberView};
use crate::model::{ModelId, Pricing};
use crate::text;
use crate::views;

verus! {

/// The breakdown of input tokens by how the cache treated them.
///
/// The two reported counts do not overlap, and together they do not have to exhaust
/// `input_tokens`: what is left over is ordinary uncached input.
#[derive(Debug, Clone, Copy, PartialEq, Eq, Structural)]
pub struct InputTokensDetails {
    /// Tokens served from the cache, billed at the cached rate. Zero after any prefix
    /// change, which is exactly how a broken cache announces itself.
    pub cached_tokens: u32,
    /// Tokens written to the cache. On GPT-5.6 these carry a 1.25× surcharge; earlier
    /// generations do not charge for writes at all.
    pub cache_write_tokens: u32,
}

/// The breakdown of output tokens.
#[derive(Debug, Clone, Copy, PartialEq, Eq, Structural)]
pub struct OutputTokensDetails {
    /// Tokens spent reasoning. Invisible in the answer, billed as output, and counted
    /// against `max_output_tokens`.
    pub reasoning_tokens: u32,
}

/// What one response cost, in tokens.
#[derive(Debug, Clone, Copy, PartialEq, Eq, Structural)]
pub struct Usage {
    /// Every input token, cached and uncached alike.
    pub input_tokens: u32,
    /// How the cache treated them.
    pub input_tokens_details: InputTokensDetails,
    /// Every generated token, reasoning included.
    pub output_tokens: u32,
    /// How many of those were reasoning.
    pub output_tokens_details: OutputTokensDetails,
    /// Input plus output.
    pub total_tokens: u32,
}

/// Why a `usage` value could not be read.
#[derive(Debug, Clone, PartialEq, Eq)]
pub struct UsageError {
    /// What was found, and what was expected in its place.
    pub message: String,
}

impl View for UsageError {
    type V = Seq<char>;

    open spec fn view(&self) -> Seq<char> {
        self.message@
    }
}

/// The words for a value that is not of the type expected.
pub open spec fn wrong_type(value: JsonView, expected: Seq<char>) -> Seq<char> {
    "invalid type: "@ + value.found() + ", expected "@ + expected
}

/// The words for an array that is too short or too long.
pub open spec fn wrong_length(length: nat, expected: Seq<char>) -> Seq<char> {
    "invalid length "@ + text::decimal(length) + ", expected "@ + expected
}

/// A count: the integer that was reported, and zero where none was or it is `null`. What is
/// not an integer has the wrong type; an integer that is not a `u32` has the wrong value.
pub open spec fn count_of(reported: Option<JsonView>) -> Result<u32, Seq<char>> {
    match reported {
        None => Ok(0),
        Some(JsonView::Null) => Ok(0),
        Some(JsonView::Number(NumberView::PosInt(n))) if n <= u32::MAX => Ok(n as u32),
        Some(JsonView::Number(NumberView::Float(_))) => Err(wrong_type(reported->0, "u32"@)),
        Some(JsonView::Number(_)) => Err(
            "invalid value: "@ + reported->0.found() + ", expected u32"@,
        ),
        Some(value) => Err(wrong_type(value, "u32"@)),
    }
}

/// The element of an array at a place.
pub open spec fn element(items: Seq<JsonView>, place: int) -> Option<JsonView> {
    if 0 <= place < items.len() {
        Some(items[place])
    } else {
        None
    }
}

/// The input breakdown that was reported, and all zero where none was. An object is read by
/// name, in the order of the names; an array by place.
pub open spec fn input_details_of(reported: Option<JsonView>) -> Result<
    InputTokensDetails,
    Seq<char>,
> {
    match reported {
        None => Ok(InputTokensDetails { cached_tokens: 0, cache_write_tokens: 0 }),
        Some(JsonView::Object(fields)) => match count_of(
            json::lookup(fields, "cache_write_tokens"@),
        ) {
            Err(error) => Err(error),
            Ok(cache_write_tokens) => match count_of(json::lookup(fields, "cached_tokens"@)) {
                Err(error) => Err(error),
                Ok(cached_tokens) => Ok(InputTokensDetails { cached_tokens, cache_write_tokens }),
            },
        },
        Some(JsonView::Array(items)) => match count_of(element(items, 0)) {
            Err(error) => Err(error),
            Ok(cached_tokens) => match count_of(element(items, 1)) {
                Err(error) => Err(error),
                Ok(cache_write_tokens) => if items.len() > 2 {
                    Err(wrong_length(items.len(), "fewer elements in array"@))
                } else {
                    Ok(InputTokensDetails { cached_tokens, cache_write_tokens })
                },
            },
        },
        Some(value) => Err(wrong_type(value, "struct InputTokensDetails"@)),
    }
}

/// The output breakdown that was reported, and all zero where none was.
pub open spec fn output_details_of(reported: Option<JsonView>) -> Result<
    OutputTokensDetails,
    Seq<char>,
> {
    match reported {
        None => Ok(OutputTokensDetails { reasoning_tokens: 0 }),
        Some(JsonView::Object(fields)) => match count_of(
            json::lookup(fields, "reasoning_tokens"@),
        ) {
            Err(error) => Err(error),
            Ok(reasoning_tokens) => Ok(OutputTokensDetails { reasoning_tokens }),
        },
        Some(JsonView::Array(items)) => match count_of(element(items, 0)) {
            Err(error) => Err(error),
            Ok(reasoning_tokens) => if items.len() > 1 {
                Err(wrong_length(items.len(), "fewer elements in array"@))
            } else {
                Ok(OutputTokensDetails { reasoning_tokens })
            },
        },
        Some(value) => Err(wrong_type(value, "struct OutputTokensDetails"@)),
    }
}

/// A usage made of its five parts; the first that cannot be read is the error.
pub open spec fn usage_of_parts(
    input: Option<JsonView>,
    input_details: Option<JsonView>,
    output: Option<JsonView>,
    output_details: Option<JsonView>,
    total: Option<JsonView>,
) -> Result<Usage, Seq<char>> {
    match count_of(input) {
        Err(error) => Err(error),
        Ok(input_tokens) => match input_details_of(input_details) {
            Err(error) => Err(error),
            Ok(input_tokens_details) => match count_of(output) {
                Err(error) => Err(error),
                Ok(output_tokens) => match output_details_of(output_details) {
                    Err(error) => Err(error),
                    Ok(output_tokens_details) => match count_of(total) {
                        Err(error) => Err(error),
                        Ok(total_tokens) => Ok(
                            Usage {
                                input_tokens,
                                input_tokens_details,
                                output_tokens,
                                output_tokens_details,
                                total_tokens,
                            },
                        ),
                    },
                },
            },
        },
    }
}

/// What a `usage` value decodes to. In an object every part is read where it is present and
/// is zero where it is not; an array gives all five by place.
pub open spec fn usage_in(usage: JsonView) -> Result<Usage, Seq<char>> {
    match usage {
        JsonView::Object(fields) => usage_of_parts(
            json::lookup(fields, "input_tokens"@),
            json::lookup(fields, "input_tokens_details"@),
            json::lookup(fields, "output_tokens"@),
            json::lookup(fields, "output_tokens_details"@),
            json::lookup(fields, "total_tokens"@),
        ),
        JsonView::Array(items) => match usage_of_parts(
            element(items, 0),
            element(items, 1),
            element(items, 2),
            element(items, 3),
            element(items, 4),
        ) {
            Err(error) => Err(error),
            Ok(usage) => if items.len() < 5 {
                Err(wrong_length(items.len(), "struct Usage with 5 elements"@))
            } else if items.len() > 5 {
                Err(wrong_length(items.len(), "fewer elements in array"@))
            } else {
                Ok(usage)
            },
        },
        _ => Err(wrong_type(usage, "struct Usage"@)),
    }
}

/// What an outcome with plain success holds.
pub open spec fn outcome_view<T>(outcome: Result<T, UsageError>) -> Result<T, Seq<char>> {
    match outcome {
        Ok(value) => Ok(value),
        Err(error) => Err(error@),
    }
}

fn of_wrong_type(value: &Json, expected: &str) -> (error: UsageError)
    ensures
        error@ == wrong_type(value@, expected@),
{
    let message = "invalid type: ".to_owned().concat(value.found().as_str()).concat(
        ", expected ",
    ).concat(expected);
    UsageError { message }
}

fn of_wrong_length(length: usize, expected: &str) -> (error: UsageError)
    ensures
        error@ == wrong_length(length as nat, expected@),
{
    let mut words = "invalid length ".to_owned();
    text::append_decimal(&mut words, length as u64);
    UsageError { message: words.concat(", expected ").concat(expected) }
}

fn read_count(reported: Option<&Json>) -> (count: Result<u32, UsageError>)
    ensures
        outcome_view(count) == count_of(views::option_view(reported)),
{
    match reported {
        None => Ok(0),
        Some(Json::Null) => Ok(0),
        Some(value) => match value {
            Json::Number(Number::PosInt(n)) if *n <= u32::MAX as u64 => Ok(*n as u32),
            Json::Number(Number::PosInt(_)) | Json::Number(Number::NegInt(_)) => {
                let message = "invalid value: ".to_owned().concat(value.found().as_str()).concat(
                    ", expected u32",
                );
                Err(UsageError { message })
            },
            _ => Err(of_wrong_type(value, "u32")),
        },
    }
}

fn at(items: &Vec<Json>, place: usize) -> (value: Option<&Json>)
    ensures
        views::option_view(value) == element(views::list_view(items@), place as int),
{
    if place < items.len() {
        Some(&items[place])
    } else {
        None
    }
}

fn read_input_details(reported: Option<&Json>) -> (details: Result<
    InputTokensDetails,
    UsageError,
>)
    ensures
        outcome_view(details) == input_details_of(views::option_view(reported)),
{
    let value = match reported {
        Some(value) => value,
        None => {
            return Ok(InputTokensDetails { cached_tokens: 0, cache_write_tokens: 0 });
        },
    };
    if value.is_object() {
        let cache_write_tokens: u32 = match read_count(value.get("cache_write_tokens")) {
            Ok(count) => count,
            Err(error) => {
                return Err(error);
            },
        };
        match read_count(value.get("cached_tokens")) {
            Ok(cached_tokens) => Ok(InputTokensDetails { cached_tokens, cache_write_tokens }),
            Err(error) => Err(error),
        }
    } else if let Some(items) = value.as_array() {
        let cached_tokens: u32 = match read_count(at(items, 0)) {
            Ok(count) => count,
            Err(error) => {
                return Err(error);
            },
        };
        match read_count(at(items, 1)) {
            Ok(cache_write_tokens) => {
                if items.len() > 2 {
                    return Err(of_wrong_length(items.len(), "fewer elements in array"));
                }
                Ok(InputTokensDetails { cached_tokens, cache_write_tokens })
            },
            Err(error) => Err(error),
        }
    } else {
        Err(of_wrong_type(value, "struct InputTokensDetails"))
    }
}

fn read_output_details(reported: Option<&Json>) -> (details: Result<
    OutputTokensDetails,
    UsageError,
>)
    ensures
        outcome_view(details) == output_details_of(views::option_view(reported)),
{
    let value = match reported {
        Some(value) => value,
        None => {
            return Ok(OutputTokensDetails { reasoning_tokens: 0 });
        },
    };
    if value.is_object() {
        match read_count(value.get("reasoning_tokens")) {
            Ok(reasoning_tokens) => Ok(OutputTokensDetails { reasoning_tokens }),
            Err(error) => Err(error),
        }
    } else if let Some(items) = value.as_array() {
        match read_count(at(items, 0)) {
            Ok(reasoning_tokens) => {
                if items.len() > 1 {
                    return Err(of_wrong_length(items.len(), "fewer elements in array"));
                }
                Ok(OutputTokensDetails { reasoning_tokens })
            },
            Err(error) => Err(error),
        }
    } else {
        Err(of_wrong_type(value, "struct OutputTokensDetails"))
    }
}

fn read_parts(
    input: Option<&Json>,
    input_details: Option<&Json>,
    output: Option<&Json>,
    output_details: Option<&Json>,
    total: Option<&Json>,
) -> (outcome: Result<Usage, UsageError>)
    ensures
        outcome_view(outcome) == usage_of_parts(
            views::option_view(input),
            views::option_view(input_details),
            views::option_view(output),
            views::option_view(output_details),
            views::option_view(total),
        ),
{
    let input_tokens: u32 = match read_count(input) {
        Ok(count) => count,
        Err(error) => {
            return Err(error);
        },
    };
    let input_tokens_details = match read_input_details(input_details) {
        Ok(details) => details,
        Err(error) => {
            return Err(error);
        },
    };
    let output_tokens: u32 = match read_count(output) {
        Ok(count) => count,
        Err(error) => {
            return Err(error);
        },
    };
    let output_tokens_details = match read_output_details(output_details) {
        Ok(details) => details,
        Err(error) => {
            return Err(error);
        },
    };
    match read_count(total) {
        Ok(total_tokens) => Ok(
            Usage {
                input_tokens,
                input_tokens_details,
                output_tokens,
                output_tokens_details,
                total_tokens,
            },
        ),
        Err(error) => Err(error),
    }
}

impl Usage {
    /// Reads a `usage` value. An absent or `null` count reads as zero, so a gateway that
    /// reports fewer fields still decodes; a count of the wrong type is an error.
    pub fn from_json(usage: &Json) -> (outcome: Result<Usage, UsageError>)
        ensures
            outcome_view(outcome) == usage_in(usage@),
    {
        if usage.is_object() {
            read_parts(
                usage.get("input_tokens"),
                usage.get("input_tokens_details"),
                usage.get("output_tokens"),
                usage.get("output_tokens_details"),
                usage.get("total_tokens"),
            )
        } else if let Some(items) = usage.as_array() {
            match read_parts(at(items, 0), at(items, 1), at(items, 2), at(items, 3), at(items, 4)) {
                Ok(held) => {
                    if items.len() < 5 {
                        return Err(of_wrong_length(items.len(), "struct Usage with 5 elements"));
                    }
                    if items.len() > 5 {
                        return Err(of_wrong_length(items.len(), "fewer elements in array"));
                    }
                    Ok(held)
                },
                Err(error) => Err(error),
            }
        } else {
            Err(of_wrong_type(usage, "struct Usage"))
        }
    }
}

impl Usage {
    /// Input tokens neither read from nor written to the cache, and none where the reported
    /// counts do not add up.
    pub open spec fn uncached(self) -> nat {
        let left = self.input_tokens - self.input_tokens_details.cached_tokens
            - self.input_tokens_details.cache_write_tokens;
        if left > 0 {
            left as nat
        } else {
            0
        }
    }

    /// The cost in nanodollars: each class of tokens at its own rate.
    pub open spec fn cost(self, pricing: Pricing) -> nat {
        (self.uncached() * pricing.input_nanodollars_per_token
            + self.input_tokens_details.cached_tokens
            * pricing.cached_input_nanodollars_per_token
            + self.input_tokens_details.cache_write_tokens
            * pricing.cache_write_nanodollars_per_token + self.output_tokens
            * pricing.output_nanodollars_per_token) as nat
    }

    /// Input tokens billed at the ordinary rate: neither read from nor written to the cache.
    ///
    /// Saturating, not wrapping: if OpenAI's counts ever fail to add up, a zero is a visibly
    /// wrong cost, while a wrapped `u32` is a plausible one.
    pub fn uncached_input_tokens(&self) -> (n: u32)
        ensures
            n == self.uncached(),
    {
        self.input_tokens.saturating_sub(self.input_tokens_details.cached_tokens).saturating_sub(
            self.input_tokens_details.cache_write_tokens,
        )
    }

    /// The counts whose ratio is the share of input served from cache: what was read, and the
    /// whole. The number to watch: the caching works when it is high and stays high. `None`
    /// for a response with no input tokens, because the ratio is undefined rather than zero.
    pub fn cache_hit_counts(&self) -> (counts: Option<(u32, u32)>)
        ensures
            counts == if self.input_tokens == 0 {
                None
            } else {
                Some((self.input_tokens_details.cached_tokens, self.input_tokens))
            },
    {
        if self.input_tokens > 0 {
            Some((self.input_tokens_details.cached_tokens, self.input_tokens))
        } else {
            None
        }
    }

    /// Exact cost in nanodollars: one billionth of a dollar.
    ///
    /// Integer arithmetic throughout, because every published rate and every cache
    /// multiplier lands on a whole nanodollar. Excludes what [`Pricing`] excludes.
    pub fn cost_nanodollars(&self, pricing: Pricing) -> (cost: u64)
        requires
            self.cost(pricing) <= u64::MAX,
        ensures
            cost == self.cost(pricing),
    {
        let uncached: u64 = self.uncached_input_tokens() as u64;
        let cached: u64 = self.input_tokens_details.cached_tokens as u64;
        let written: u64 = self.input_tokens_details.cache_write_tokens as u64;
        let output: u64 = self.output_tokens as u64;
        proof {
            no_product_is_negative(uncached, pricing.input_nanodollars_per_token);
            no_product_is_negative(cached, pricing.cached_input_nanodollars_per_token);
            no_product_is_negative(written, pricing.cache_write_nanodollars_per_token);
            no_product_is_negative(output, pricing.output_nanodollars_per_token);
        }
        uncached * pricing.input_nanodollars_per_token + cached
            * pricing.cached_input_nanodollars_per_token + written
            * pricing.cache_write_nanodollars_per_token + output
            * pricing.output_nanodollars_per_token
    }

    /// The three input classes partition the input, where the reported counts add up.
    pub proof fn the_input_classes_partition_the_input(usage: Usage)
        requires
            usage.input_tokens_details.cached_tokens
                + usage.input_tokens_details.cache_write_tokens <= usage.input_tokens,
        ensures
            usage.uncached() + usage.input_tokens_details.cached_tokens
                + usage.input_tokens_details.cache_write_tokens == usage.input_tokens,
    {
    }

    /// The cost of any usage at any list price can be computed.
    pub proof fn a_list_price_never_overflows(usage: Usage, id: ModelId)
        ensures
            usage.cost(id.list_price()) <= u64::MAX,
    {
        let price = id.list_price();
        assert(usage.uncached() <= u32::MAX);
        product_bound(usage.uncached() as int, price.input_nanodollars_per_token as int);
        product_bound(
            usage.input_tokens_details.cached_tokens as int,
            price.cached_input_nanodollars_per_token as int,
        );
        product_bound(
            usage.input_tokens_details.cache_write_tokens as int,
            price.cache_write_nanodollars_per_token as int,
        );
        product_bound(usage.output_tokens as int, price.output_nanodollars_per_token as int);
    }

    /// On every model with explicit breakpoints, writing a prefix once and reading it nine
    /// times costs 2.15 times the ordinary rate, against ten times without caching.
    pub proof fn one_write_and_nine_reads_cost_43_twentieths(id: ModelId, prefix: u32)
        requires
            id.honors_breakpoints(),
        ensures
            ({
                let input_only = |cached: u32, written: u32|
                    Usage {
                        input_tokens: prefix,
                        input_tokens_details: InputTokensDetails {
                            cached_tokens: cached,
                            cache_write_tokens: written,
                        },
                        output_tokens: 0,
                        output_tokens_details: OutputTokensDetails { reasoning_tokens: 0 },
                        total_tokens: prefix,
                    };
                let price = id.list_price();
                (input_only(0, prefix).cost(price) + 9 * input_only(prefix, 0).cost(price)) * 20
                    == input_only(0, 0).cost(price) * 43
            }),
    {
        let p = prefix as int;
        let price = id.list_price();
        let input = price.input_nanodollars_per_token as int;
        let cached = price.cached_input_nanodollars_per_token as int;
        let write = price.cache_write_nanodollars_per_token as int;
        ModelId::breakpoint_models_read_at_a_tenth_and_write_at_five_quarters(id);
        assert(p * input >= 0 && p * cached >= 0 && p * write >= 0) by (nonlinear_arith)
            requires
                p >= 0,
                input >= 0,
                cached >= 0,
                write >= 0,
        ;
        assert((p * write + 9 * (p * cached)) * 20 == (p * input) * 43) by (nonlinear_arith)
            requires
                cached * 10 == input,
                write * 4 == input * 5,
        ;
        assert(0 * input == 0 && 0 * cached == 0 && 0 * write == 0) by (nonlinear_arith);
        assert(0 * price.output_nanodollars_per_token == 0) by (nonlinear_arith);
    }
}

proof fn no_product_is_negative(a: u64, b: u64)
    ensures
        0 <= a * b,
{
    assert(0 <= a * b) by (nonlinear_arith);
}

proof fn product_bound(count: int, rate: int)
    requires
        0 <= count <= 0xffff_ffff,
        0 <= rate <= 180_000,
    ensures
        0 <= count * rate <= 0xffff_ffff * 180_000,
{
    assert(0 <= count * rate <= 0xffff_ffff * 180_000) by (nonlinear_arith)
        requires
            0 <= count <= 0xffff_ffff,
            0 <= rate <= 180_000,
    ;
}

} // verus!
