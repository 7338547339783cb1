//! The health of the models.
use crate::json::{
    JsonView, documents, field, json_contents, object, of_signed, signed_at, signed_field, text_at,
    text_field, with, with_member,
};
use vstd::prelude::*;

verus! {

/// How often a model was called, and how often that ended in which way.
#[derive(Clone, Copy, Debug, PartialEq, Eq, Structural)]
pub struct Counts {
    pub total: i64,
    pub ok: i64,
    pub rate_limited: i64,
    pub network: i64,
    pub timeout: i64,
}

/// The count under a name: no less than zero, and zero where there is none.
pub open spec fn count_at(row: JsonView, key: Seq<char>) -> i64 {
    match signed_at(row, key) {
        Some(n) => if n > 0 {
            n
        } else {
            0
        },
        None => 0,
    }
}

/// The counts in a row.
pub open spec fn row_counts(row: JsonView) -> Counts {
    Counts {
        total: count_at(row, "total"@),
        ok: count_at(row, "ok_cnt"@),
        rate_limited: count_at(row, "rate_cnt"@),
        network: count_at(row, "net_cnt"@),
        timeout: count_at(row, "to_cnt"@),
    }
}

/// Reads the count under a name.
fn count(row: &serde_json::Value, key: &str) -> (r: i64)
    ensures
        r == count_at(json_contents(*row), key@),
{
    match signed_field(row, key) {
        Some(n) => if n > 0 {
            n
        } else {
            0
        },
        None => 0,
    }
}

/// Reads the counts in a row.
pub fn counts(row: &serde_json::Value) -> (r: Counts)
    ensures
        r == row_counts(json_contents(*row)),
{
    Counts {
        total: count(row, "total"),
        ok: count(row, "ok_cnt"),
        rate_limited: count(row, "rate_cnt"),
        network: count(row, "net_cnt"),
        timeout: count(row, "to_cnt"),
    }
}

/// The health of a model.
#[derive(Clone, Copy, Debug, PartialEq, Eq, Structural)]
pub struct Health {
    pub total: i64,
    pub ok: i64,
    pub avg_latency_ms: i64,
    pub score: i64,
}

/// The document that gives the health of a model.
pub open spec fn health_json(health: Health) -> JsonView {
    JsonView::Object(
        map![
            "total"@ => JsonView::Int(health.total as int),
            "ok"@ => JsonView::Int(health.ok as int),
            "avg_latency_ms"@ => JsonView::Int(health.avg_latency_ms as int),
            "score"@ => JsonView::Int(health.score as int),
        ],
    )
}

/// Writes the document that gives the health of a model.
pub fn health_document(health: &Health) -> (r: serde_json::Value)
    ensures
        json_contents(r) == health_json(*health),
{
    with(
        with(
            with(
                with(object(), "total", of_signed(health.total)),
                "ok",
                of_signed(health.ok),
            ),
            "avg_latency_ms",
            of_signed(health.avg_latency_ms),
        ),
        "score",
        of_signed(health.score),
    )
}

/// The document that gives the health of each model that a row names. A later row of the
/// same name counts.
pub open spec fn all_health(rows: Seq<JsonView>, healths: Seq<Health>) -> JsonView
    decreases rows.len(),
{
    if rows.len() == 0 {
        JsonView::Object(Map::empty())
    } else {
        let before = all_health(rows.drop_last(), healths);
        match text_at(rows.last(), "model"@) {
            Some(model) => with_member(before, model, health_json(healths[rows.len() - 1])),
            None => before,
        }
    }
}

/// Gathers the health of each model that a row names, given the health in each row.
pub fn compute_all_health(rows: &[serde_json::Value], healths: &[Health]) -> (r: serde_json::Value)
    requires
        rows@.len() == healths@.len(),
    ensures
        json_contents(r) == all_health(documents(rows@), healths@),
{
    let mut out = object();
    let mut i: usize = 0;
    let ghost docs = documents(rows@);
    while i < rows.len()
        invariant
            i <= rows@.len(),
            rows@.len() == healths@.len(),
            docs == documents(rows@),
            json_contents(out) is Object,
            json_contents(out) == all_health(docs.take(i as int), healths@),
        decreases rows@.len() - i,
    {
        assert(docs.take(i + 1).drop_last() =~= docs.take(i as int));
        assert(docs.take(i + 1).last() == json_contents(rows@[i as int]));
        if let Some(model) = text_field(&rows[i], "model") {
            out = with(out, model, health_document(&healths[i]));
        }
        i += 1;
    }
    assert(docs.take(i as int) =~= docs);
    out
}

/// The members of a health are told apart by their names.
proof fn lemma_health_keys()
    ensures
        "ok"@.len() == 2,
        "total"@.len() == 5 && "total"@[0] == 't',
        "score"@.len() == 5 && "score"@[0] == 's',
        "avg_latency_ms"@.len() == 14,
{
    reveal_strlit("total");
    reveal_strlit("ok");
    reveal_strlit("avg_latency_ms");
    reveal_strlit("score");
}

/// Each count is read under its own name, and is zero where it is missing or below zero.
pub proof fn law_counts_are_read(row: JsonView, key: Seq<char>)
    ensures
        count_at(row, key) >= 0,
        field(row, key) matches Some(JsonView::Int(n)) ==> (0 <= n <= i64::MAX ==> count_at(row, key)
            == n),
        !(field(row, key) matches Some(JsonView::Int(n)) && 0 <= n <= i64::MAX) ==> count_at(
            row,
            key,
        ) == 0,
        row_counts(row).total == count_at(row, "total"@),
        row_counts(row).ok == count_at(row, "ok_cnt"@),
        row_counts(row).rate_limited == count_at(row, "rate_cnt"@),
        row_counts(row).network == count_at(row, "net_cnt"@),
        row_counts(row).timeout == count_at(row, "to_cnt"@),
{
}

/// Each member of a health says what its name says.
pub proof fn law_healths_say_what_they_name(health: Health)
    ensures
        field(health_json(health), "total"@) == Some(JsonView::Int(health.total as int)),
        field(health_json(health), "ok"@) == Some(JsonView::Int(health.ok as int)),
        field(health_json(health), "avg_latency_ms"@) == Some(
            JsonView::Int(health.avg_latency_ms as int),
        ),
        field(health_json(health), "score"@) == Some(JsonView::Int(health.score as int)),
{
    lemma_health_keys();
}

/// What is gathered is always an object.
proof fn lemma_all_health_is_object(rows: Seq<JsonView>, healths: Seq<Health>)
    ensures
        all_health(rows, healths) is Object,
    decreases rows.len(),
{
    if rows.len() > 0 {
        lemma_all_health_is_object(rows.drop_last(), healths);
    }
}

/// A row that names a model gives that model its health and changes no other's; a row that
/// names none changes nothing; and without rows no health is known.
pub proof fn law_rows_give_health(
    rows: Seq<JsonView>,
    row: JsonView,
    healths: Seq<Health>,
    model: Seq<char>,
    other: Seq<char>,
)
    requires
        other != model,
        healths.len() == rows.len() + 1,
    ensures
        field(all_health(Seq::empty(), healths), model) is None,
        field(row, "model"@) == Some(JsonView::Str(model)) ==> field(
            all_health(rows.push(row), healths),
            model,
        ) == Some(health_json(healths[rows.len() as int])) && field(
            all_health(rows.push(row), healths),
            other,
        ) == field(all_health(rows, healths), other),
        !(field(row, "model"@) matches Some(JsonView::Str(_))) ==> all_health(
            rows.push(row),
            healths,
        ) == all_health(rows, healths),
{
    assert(rows.push(row).drop_last() =~= rows);
    lemma_all_health_is_object(rows, healths);
}

} // verus!
