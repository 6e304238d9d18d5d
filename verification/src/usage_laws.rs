//! What holds of usage and its price as a whole.
use vstd::prelude::*;

use crate::json::{JsonView, NumberView};
use crate::model::Pricing;
use crate::usage;
use crate::usage::{InputTokensDetails, OutputTokensDetails, Usage};

verus! {

/// A usage of so many tokens of each class: read from the cache, written to it, neither, and
/// generated.
pub open spec fn spent(read: u32, written: u32, fresh: u32, output: u32, reasoning: u32) -> Usage {
    Usage {
        input_tokens: (read + written + fresh) as u32,
        input_tokens_details: InputTokensDetails {
            cached_tokens: read,
            cache_write_tokens: written,
        },
        output_tokens: output,
        output_tokens_details: OutputTokensDetails { reasoning_tokens: reasoning },
        total_tokens: (read + written + fresh + output) as u32,
    }
}

/// The cost is additive over the classes of tokens: one more token of a class raises it by
/// exactly that class's rate, whatever else was spent, and nothing costs nothing.
pub proof fn each_token_costs_its_own_rate(
    read: u32,
    written: u32,
    fresh: u32,
    output: u32,
    reasoning: u32,
    price: Pricing,
)
    requires
        read + written + fresh + output < u32::MAX,
    ensures
        ({
            let cost = spent(read, written, fresh, output, reasoning).cost(price);
            &&& spent((read + 1) as u32, written, fresh, output, reasoning).cost(price) == cost
                + price.cached_input_nanodollars_per_token
            &&& spent(read, (written + 1) as u32, fresh, output, reasoning).cost(price) == cost
                + price.cache_write_nanodollars_per_token
            &&& spent(read, written, (fresh + 1) as u32, output, reasoning).cost(price) == cost
                + price.input_nanodollars_per_token
            &&& spent(read, written, fresh, (output + 1) as u32, reasoning).cost(price) == cost
                + price.output_nanodollars_per_token
        }),
        spent(0, 0, 0, 0, reasoning).cost(price) == 0,
{
    let i = price.input_nanodollars_per_token as int;
    let c = price.cached_input_nanodollars_per_token as int;
    let w = price.cache_write_nanodollars_per_token as int;
    let o = price.output_nanodollars_per_token as int;
    one_more(read as int, c);
    one_more(written as int, w);
    one_more(fresh as int, i);
    one_more(output as int, o);
    assert(0 * i == 0 && 0 * c == 0 && 0 * w == 0 && 0 * o == 0) by (nonlinear_arith);
}

proof fn one_more(n: int, rate: int)
    requires
        0 <= n,
        0 <= rate,
    ensures
        (n + 1) * rate == n * rate + rate,
        0 <= n * rate,
{
    assert((n + 1) * rate == n * rate + rate && 0 <= n * rate) by (nonlinear_arith)
        requires
            0 <= n,
            0 <= rate,
    ;
}

/// The cost is what each class of tokens costs, added up.
pub proof fn the_cost_is_each_class_at_its_rate(
    read: u32,
    written: u32,
    fresh: u32,
    output: u32,
    reasoning: u32,
    price: Pricing,
)
    requires
        read + written + fresh + output <= u32::MAX,
    ensures
        spent(read, written, fresh, output, reasoning).cost(price) == fresh
            * price.input_nanodollars_per_token + read * price.cached_input_nanodollars_per_token
            + written * price.cache_write_nanodollars_per_token + output
            * price.output_nanodollars_per_token,
        spent(read, written, fresh, output, reasoning).uncached() == fresh,
{
    one_more(read as int, price.cached_input_nanodollars_per_token as int);
    one_more(written as int, price.cache_write_nanodollars_per_token as int);
    one_more(fresh as int, price.input_nanodollars_per_token as int);
    one_more(output as int, price.output_nanodollars_per_token as int);
}

/// Neither the reasoning share nor the reported total is billed: output tokens are, reasoning
/// included.
pub proof fn only_the_counts_of_a_class_are_billed(a: Usage, b: Usage, price: Pricing)
    requires
        a.input_tokens == b.input_tokens,
        a.input_tokens_details == b.input_tokens_details,
        a.output_tokens == b.output_tokens,
    ensures
        a.cost(price) == b.cost(price),
{
}

/// Where the reported counts do not add up, nothing counts as ordinary input.
pub proof fn counts_that_do_not_add_up_leave_no_ordinary_input(held: Usage)
    ensures
        held.input_tokens <= held.input_tokens_details.cached_tokens
            + held.input_tokens_details.cache_write_tokens ==> held.uncached() == 0,
        held.uncached() <= held.input_tokens,
{
}

/// Whether a number was reported under a name: it stands there, or nothing does and it is zero.
pub open spec fn reports(object: JsonView, key: Seq<char>, n: u32) -> bool {
    match object.field(key) {
        None => n == 0,
        Some(JsonView::Null) => n == 0,
        Some(value) => value == JsonView::Number(NumberView::PosInt(n as u64)),
    }
}

/// A usage object is read field by field, each count from its own name; one that is absent or
/// `null` is zero, and so are the counts of a breakdown that is absent.
pub proof fn a_usage_object_is_read_by_name(object: JsonView, held: Usage)
    requires
        object is Object,
        object.field("input_tokens_details"@) matches Some(details) ==> details is Object,
        object.field("output_tokens_details"@) matches Some(details) ==> details is Object,
    ensures
        usage::usage_in(object) == Ok::<Usage, Seq<char>>(held) <==> {
            &&& reports(object, "input_tokens"@, held.input_tokens)
            &&& reports(object, "output_tokens"@, held.output_tokens)
            &&& reports(object, "total_tokens"@, held.total_tokens)
            &&& match object.field("input_tokens_details"@) {
                Some(details) => {
                    &&& reports(
                        details,
                        "cached_tokens"@,
                        held.input_tokens_details.cached_tokens,
                    )
                    &&& reports(
                        details,
                        "cache_write_tokens"@,
                        held.input_tokens_details.cache_write_tokens,
                    )
                },
                None => held.input_tokens_details.cached_tokens == 0
                    && held.input_tokens_details.cache_write_tokens == 0,
            }
            &&& match object.field("output_tokens_details"@) {
                Some(details) => reports(
                    details,
                    "reasoning_tokens"@,
                    held.output_tokens_details.reasoning_tokens,
                ),
                None => held.output_tokens_details.reasoning_tokens == 0,
            }
        },
{
}

/// A usage array gives its five parts by place, and is refused where it has more or fewer.
pub proof fn a_usage_array_is_read_by_place(items: Seq<JsonView>, held: Usage)
    requires
        usage::usage_in(JsonView::Array(items)) == Ok::<Usage, Seq<char>>(held),
    ensures
        items.len() == 5,
        usage::count_of(Some(items[0])) == Ok::<u32, Seq<char>>(held.input_tokens),
        usage::input_details_of(Some(items[1])) == Ok::<InputTokensDetails, Seq<char>>(
            held.input_tokens_details,
        ),
        usage::count_of(Some(items[2])) == Ok::<u32, Seq<char>>(held.output_tokens),
        usage::output_details_of(Some(items[3])) == Ok::<OutputTokensDetails, Seq<char>>(
            held.output_tokens_details,
        ),
        usage::count_of(Some(items[4])) == Ok::<u32, Seq<char>>(held.total_tokens),
{
}

/// A breakdown given as an array is read by place too, and may leave counts out at its end.
pub proof fn a_breakdown_array_is_read_by_place(items: Seq<JsonView>)
    ensures
        usage::input_details_of(Some(JsonView::Array(items))) matches Ok(details) ==> {
            &&& items.len() <= 2
            &&& items.len() > 0 ==> usage::count_of(Some(items[0])) == Ok::<u32, Seq<char>>(
                details.cached_tokens,
            )
            &&& items.len() > 1 ==> usage::count_of(Some(items[1])) == Ok::<u32, Seq<char>>(
                details.cache_write_tokens,
            )
            &&& items.len() < 2 ==> details.cache_write_tokens == 0
            &&& items.len() < 1 ==> details.cached_tokens == 0
        },
        usage::output_details_of(Some(JsonView::Array(items))) matches Ok(details) ==> {
            &&& items.len() <= 1
            &&& items.len() > 0 ==> usage::count_of(Some(items[0])) == Ok::<u32, Seq<char>>(
                details.reasoning_tokens,
            )
            &&& items.len() < 1 ==> details.reasoning_tokens == 0
        },
{
}

/// A count is a number from zero up that a `u32` holds, and is refused, naming what was found,
/// where it is anything else.
pub proof fn a_count_is_a_number_from_zero_up(value: JsonView)
    ensures
        value is Null ==> usage::count_of(Some(value)) == Ok::<u32, Seq<char>>(0),
        usage::count_of(None) == Ok::<u32, Seq<char>>(0),
        forall|n: u32| #[trigger]
            usage::count_of(Some(JsonView::Number(NumberView::PosInt(n as u64)))) == Ok::<
                u32,
                Seq<char>,
            >(n),
        !(value is Null) && !(value matches JsonView::Number(NumberView::PosInt(n)) && n
            <= u32::MAX) ==> usage::count_of(Some(value)) == Err::<u32, Seq<char>>(
            if value is Number && !(value->Number_0 is Float) {
                "invalid value: "@
            } else {
                "invalid type: "@
            } + value.found() + ", expected u32"@,
        ),
{
    if !(value is Null) && !(value matches JsonView::Number(NumberView::PosInt(n)) && n
        <= u32::MAX) {
        reveal_strlit(", expected ");
        reveal_strlit("u32");
        reveal_strlit(", expected u32");
        assert(", expected "@ + "u32"@ =~= ", expected u32"@);
        let words = usage::count_of(Some(value))->Err_0;
        if value matches JsonView::Number(NumberView::PosInt(_)) || value matches JsonView::Number(
            NumberView::NegInt(_),
        ) {
            assert(words == "invalid value: "@ + value.found() + ", expected u32"@);
        } else {
            assert(words =~= "invalid type: "@ + value.found() + ", expected u32"@);
        }
    }
}

} // verus!
