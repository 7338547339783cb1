//! The dice tool.
use crate::body::{opt_bytes, read_json_body, tool_body};
use crate::json::{
    JsonView, documents, field, json_contents, object, of_list, of_unsigned, unsigned_at,
    unsigned_field, with,
};
use crate::reply::{Reply, ReplyView, json_res, success};
use vstd::prelude::*;

verus! {

/// Some dice to be thrown.
pub struct Dice {
    pub sides: u64,
    pub count: u64,
}

impl Dice {
    /// From 1 to 20 dice of 2 to 1000 sides.
    pub open spec fn wf(self) -> bool {
        2 <= self.sides <= 1000 && 1 <= self.count <= 20
    }
}

/// A number, or the nearest within two bounds; a default where there is none.
pub open spec fn bounded(n: Option<u64>, default: u64, low: u64, high: u64) -> u64 {
    let m = match n {
        Some(m) => m,
        None => default,
    };
    if m < low {
        low
    } else if m > high {
        high
    } else {
        m
    }
}

/// The dice that a document asks for: one die of six sides where it does not say.
pub open spec fn asked_dice(document: JsonView) -> Dice {
    Dice {
        sides: bounded(unsigned_at(document, "sides"@), 6, 2, 1000),
        count: bounded(unsigned_at(document, "count"@), 1, 1, 20),
    }
}

/// Brings a number within two bounds.
fn clamp(n: Option<u64>, default: u64, low: u64, high: u64) -> (r: u64)
    ensures
        r == bounded(n, default, low, high),
{
    let m: u64 = match n {
        Some(m) => m,
        None => default,
    };
    if m < low {
        low
    } else if m > high {
        high
    } else {
        m
    }
}

/// Reads which dice a document asks for.
pub fn ask_dice(document: &serde_json::Value) -> (r: Dice)
    ensures
        r == asked_dice(json_contents(*document)),
        r.wf(),
{
    Dice {
        sides: clamp(unsigned_field(document, "sides"), 6, 2, 1000),
        count: clamp(unsigned_field(document, "count"), 1, 1, 20),
    }
}

/// Reads which dice a request asks for.
pub fn handle_tool_dice(body: Option<&[u8]>) -> (r: Result<Dice, Reply>)
    ensures
        match r {
            Ok(dice) => dice.wf() && (tool_body(opt_bytes(body)) matches Ok(document)
                && dice == asked_dice(document)),
            Err(reply) => tool_body(opt_bytes(body)) == Err::<JsonView, ReplyView>(reply@),
        },
{
    match read_json_body(body) {
        Ok(document) => Ok(ask_dice(&document)),
        Err(reply) => Err(reply),
    }
}

/// The sides that come up for the given draws, each a number below the number of
/// sides.
pub open spec fn rolls(draws: Seq<u64>) -> Seq<int> {
    draws.map_values(|d: u64| d + 1)
}

/// The sum of some numbers.
pub open spec fn sum(list: Seq<int>) -> int
    decreases list.len(),
{
    if list.len() == 0 {
        0
    } else {
        sum(list.drop_last()) + list.last()
    }
}

/// The document that gives the outcome of a throw.
pub open spec fn throw_json(dice: Dice, draws: Seq<u64>) -> JsonView {
    JsonView::Object(
        map![
            "sides"@ => JsonView::Int(dice.sides as int),
            "count"@ => JsonView::Int(dice.count as int),
            "rolls"@ => JsonView::Array(rolls(draws).map_values(|n: int| JsonView::Int(n))),
            "total"@ => JsonView::Int(sum(rolls(draws))),
        ],
    )
}

/// Draws that decide a throw: one for each die, each below the number of sides.
pub open spec fn decides(dice: Dice, draws: Seq<u64>) -> bool {
    draws.len() == dice.count && forall|i: int| 0 <= i < draws.len() ==> draws[i] < dice.sides
}

/// Tells whether some draws decide a throw.
pub fn can_decide(dice: &Dice, draws: &[u64]) -> (r: bool)
    ensures
        r == decides(*dice, draws@),
{
    if draws.len() as u64 != dice.count {
        return false;
    }
    let mut i: usize = 0;
    while i < draws.len()
        invariant
            i <= draws@.len(),
            draws@.len() == dice.count,
            forall|j: int| 0 <= j < i ==> draws@[j] < dice.sides,
        decreases draws@.len() - i,
    {
        if draws[i] >= dice.sides {
            return false;
        }
        i += 1;
    }
    true
}

/// Gives the outcome of a throw that is decided by the given draws.
pub fn throw(dice: &Dice, draws: &[u64]) -> (r: Reply)
    requires
        dice.wf(),
        decides(*dice, draws@),
    ensures
        r@ == success(throw_json(*dice, draws@)),
{
    let mut items: Vec<serde_json::Value> = Vec::new();
    let mut total: u64 = 0;
    let mut i: usize = 0;
    let ghost all = rolls(draws@);
    while i < draws.len()
        invariant
            i <= draws@.len(),
            dice.wf(),
            decides(*dice, draws@),
            all == rolls(draws@),
            documents(items@) == all.take(i as int).map_values(|n: int| JsonView::Int(n)),
            total == sum(all.take(i as int)),
            total <= 1000 * i,
        decreases draws@.len() - i,
    {
        let ghost listed = items@;
        let v: u64 = draws[i] + 1;
        assert(all.take(i + 1).drop_last() =~= all.take(i as int));
        assert(all.take(i + 1).last() == v);
        total += v;
        items.push(of_unsigned(v));
        i += 1;
        assert(documents(items@) =~= documents(listed).push(JsonView::Int(v as int)));
        assert(documents(items@) =~= all.take(i as int).map_values(|n: int| JsonView::Int(n)));
    }
    assert(all.take(i as int) =~= all);
    json_res(
        with(
            with(
                with(
                    with(object(), "sides", of_unsigned(dice.sides)),
                    "count",
                    of_unsigned(dice.count),
                ),
                "rolls",
                of_list(items),
            ),
            "total",
            of_unsigned(total),
        ),
    )
}

/// Every side that comes up is one of the die, and the total is at least the number
/// of dice and at most that number times the number of sides.
pub proof fn law_throws_are_in_range(dice: Dice, draws: Seq<u64>)
    requires
        dice.wf(),
        decides(dice, draws),
    ensures
        rolls(draws).len() == dice.count,
        forall|i: int| 0 <= i < dice.count ==> 1 <= #[trigger] rolls(draws)[i] <= dice.sides,
        dice.count <= sum(rolls(draws)) <= dice.count * dice.sides,
{
    lemma_sum_in_range(rolls(draws), dice.sides as int);
}

/// Numbers from one to a bound add up to no less than how many they are, and to no
/// more than that many times the bound.
proof fn lemma_sum_in_range(list: Seq<int>, high: int)
    requires
        forall|i: int| 0 <= i < list.len() ==> 1 <= #[trigger] list[i] <= high,
    ensures
        list.len() <= sum(list) <= list.len() * high,
    decreases list.len(),
{
    if list.len() > 0 {
        let front = list.drop_last();
        assert forall|i: int| 0 <= i < front.len() implies 1 <= #[trigger] front[i] <= high by {
            assert(front[i] == list[i]);
        }
        lemma_sum_in_range(front, high);
        assert(list[list.len() - 1] == list.last());
        assert(list.len() * high == front.len() * high + high) by (nonlinear_arith)
            requires
                list.len() == front.len() + 1,
        ;
    }
}

/// The members of an outcome are told apart by their names.
proof fn lemma_throw_keys()
    ensures
        "sides"@.len() == 5 && "sides"@[0] == 's',
        "count"@.len() == 5 && "count"@[0] == 'c',
        "rolls"@.len() == 5 && "rolls"@[0] == 'r',
        "total"@.len() == 5 && "total"@[0] == 't',
{
    reveal_strlit("sides");
    reveal_strlit("count");
    reveal_strlit("rolls");
    reveal_strlit("total");
}

/// The number under a name, brought within two bounds; a default where there is none.
pub open spec fn within(document: JsonView, key: Seq<char>, n: u64, default: int, low: int, high: int) -> bool {
    match field(document, key) {
        Some(JsonView::Int(m)) => if 0 <= m <= u64::MAX {
            &&& low <= n <= high
            &&& low <= m <= high ==> n == m
            &&& m < low ==> n == low
            &&& m > high ==> n == high
        } else {
            n == default
        },
        _ => n == default,
    }
}

/// From 1 to 20 dice of 2 to 1000 sides are thrown: those that are asked for, or the nearest
/// that there can be, and one die of six sides where nothing is asked for.
pub proof fn law_asked_dice(document: JsonView)
    ensures
        within(document, "sides"@, asked_dice(document).sides, 6, 2, 1000),
        within(document, "count"@, asked_dice(document).count, 1, 1, 20),
        2 <= asked_dice(document).sides <= 1000,
        1 <= asked_dice(document).count <= 20,
{
}

/// The outcome of a throw says which dice were thrown, which side came up on each, counted
/// from one, in their order, and what they add up to.
pub proof fn law_outcomes_of_throws(dice: Dice, draws: Seq<u64>)
    ensures
        field(throw_json(dice, draws), "sides"@) == Some(JsonView::Int(dice.sides as int)),
        field(throw_json(dice, draws), "count"@) == Some(JsonView::Int(dice.count as int)),
        field(throw_json(dice, draws), "rolls"@) matches Some(JsonView::Array(items)) && items.len()
            == draws.len() && forall|i: int|
            0 <= i < draws.len() ==> #[trigger] items[i] == JsonView::Int(draws[i] + 1),
        field(throw_json(dice, draws), "total"@) == Some(
            JsonView::Int(draws.len() + draws_sum(draws)),
        ),
{
    lemma_throw_keys();
    lemma_sum_of_rolls(draws);
}

/// What some draws add up to.
pub open spec fn draws_sum(draws: Seq<u64>) -> int {
    draws.fold_left(0int, |total: int, d: u64| total + d)
}

/// The sides that come up add up to the draws and one for each.
proof fn lemma_sum_of_rolls(draws: Seq<u64>)
    ensures
        sum(rolls(draws)) == draws.len() + draws_sum(draws),
    decreases draws.len(),
{
    if draws.len() > 0 {
        lemma_sum_of_rolls(draws.drop_last());
        assert(rolls(draws).drop_last() =~= rolls(draws.drop_last()));
    }
}

} // verus!
