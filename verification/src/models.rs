//! The list of models, with what is known of each.
use crate::catalog::{
    CATALOG_LEN, MODEL_CATALOG, Provider, catalog_id, catalog_owner, provider, provider_of,
};
use crate::json::{
    JsonView, documents, field, get, json_contents, json_text, object, of_list, of_signed, of_text,
    opt_contents, signed_at, signed_field, text_at, text_field, to_text, true_at, true_field, with,
    with_member,
};
use crate::reply::{Reply, add_header, cors, cors_headers, header_texts, json_res, success};
use crate::routing::law_nvidia_serves_none_of_workers_ai;
use vstd::prelude::*;

verus! {

/// Where the list is cached.
pub const MODEL_CACHE_KEY: &'static str = "models_list";

/// How long, in seconds, the list is cached.
pub const MODEL_CACHE_TTL: u64 = 30;

pub const EXHAUSTED_MESSAGE: &'static str =
    "Workers AI 今日免费额度已用尽，请等待每天 00:00 UTC 额度自动重置后重试，或切换其他模型（如 build/ 前缀的 Nvidia 模型）";

pub const UNAVAILABLE_MESSAGE: &'static str =
    "该模型在上游不存在或已被拒绝（3+ 密钥无访问权限），10 分钟后自动重试";

// ---------------------------------------------------------------------------
// Blocked models
// ---------------------------------------------------------------------------
/// A model that is blocked, and until when, where an item of the pool's answer says so.
pub open spec fn blocked_item(item: JsonView) -> Option<(Seq<char>, i64)> {
    match (text_at(item, "model"@), signed_at(item, "until"@)) {
        (Some(model), Some(until)) => Some((model, until)),
        _ => None,
    }
}

/// Until when a model is blocked, by the last item that speaks of it.
pub open spec fn until_in(items: Seq<JsonView>, model: Seq<char>) -> Option<i64>
    decreases items.len(),
{
    if items.len() == 0 {
        None
    } else {
        match blocked_item(items.last()) {
            Some((m, until)) => if m == model {
                Some(until)
            } else {
                until_in(items.drop_last(), model)
            },
            None => until_in(items.drop_last(), model),
        }
    }
}

/// Until when a model is blocked, by the pool's answer, where there was a readable one.
pub open spec fn blocked_until(answer: Option<JsonView>, model: Seq<char>) -> Option<i64> {
    match answer {
        Some(doc) => match field(doc, "blocked"@) {
            Some(JsonView::Array(items)) => until_in(items, model),
            _ => None,
        },
        None => None,
    }
}

/// Models that are blocked, each with the time until when.
pub struct Blocked {
    pub entries: Vec<(String, i64)>,
}

/// The last time that a list gives to a model.
pub open spec fn last_entry(entries: Seq<(String, i64)>, model: Seq<char>) -> Option<i64>
    decreases entries.len(),
{
    if entries.len() == 0 {
        None
    } else if entries.last().0@ == model {
        Some(entries.last().1)
    } else {
        last_entry(entries.drop_last(), model)
    }
}

impl Blocked {
    /// Until when a model is blocked.
    pub open spec fn until(self, model: Seq<char>) -> Option<i64> {
        last_entry(self.entries@, model)
    }

    /// Looks up until when a model is blocked.
    pub fn get(&self, model: &str) -> (r: Option<i64>)
        ensures
            r == self.until(model@),
    {
        let mut i: usize = self.entries.len();
        assert(self.entries@.take(i as int) =~= self.entries@);
        while i > 0
            invariant
                i <= self.entries@.len(),
                last_entry(self.entries@, model@) == last_entry(
                    self.entries@.take(i as int),
                    model@,
                ),
            decreases i,
        {
            i -= 1;
            assert(self.entries@.take(i + 1).last() == self.entries@[i as int]);
            assert(self.entries@.take(i + 1).drop_last() =~= self.entries@.take(i as int));
            if *self.entries[i].0.as_str() == *model {
                return Some(self.entries[i].1);
            }
        }
        None
    }
}

/// Reads which models are blocked out of the pool's answer, where there was a readable
/// one.
pub fn fetch_blocked_models(answer: Option<&serde_json::Value>) -> (r: Blocked)
    ensures
        forall|model: Seq<char>| #[trigger]
            r.until(model) == blocked_until(opt_contents(answer), model),
{
    let mut entries: Vec<(String, i64)> = Vec::new();
    let doc = match answer {
        Some(d) => d,
        None => return Blocked { entries },
    };
    let value = match get(doc, "blocked") {
        Some(v) => v,
        None => return Blocked { entries },
    };
    let items = match value.as_array() {
        Some(list) => list,
        None => return Blocked { entries },
    };
    let ghost docs = documents(items@);
    let mut i: usize = 0;
    while i < items.len()
        invariant
            i <= items@.len(),
            docs == documents(items@),
            forall|model: Seq<char>| #[trigger]
                last_entry(entries@, model) == until_in(docs.take(i as int), model),
        decreases items@.len() - i,
    {
        let ghost before = entries@;
        assert(docs.take(i + 1).drop_last() =~= docs.take(i as int));
        assert(docs.take(i + 1).last() == json_contents(items@[i as int]));
        let model = text_field(&items[i], "model");
        let until = signed_field(&items[i], "until");
        if let Some(m) = model {
            if let Some(t) = until {
                entries.push((m.to_string(), t));
                assert(entries@.drop_last() =~= before);
            }
        }
        i += 1;
        assert forall|name: Seq<char>| #[trigger]
            last_entry(entries@, name) == until_in(docs.take(i as int), name) by {
            assert(last_entry(before, name) == until_in(docs.take(i - 1), name));
        }
    }
    assert(docs.take(i as int) =~= docs);
    let r = Blocked { entries };
    assert forall|model: Seq<char>| #[trigger]
        r.until(model) == blocked_until(opt_contents(answer), model) by {
        assert(last_entry(entries@, model) == until_in(docs, model));
    }
    r
}

/// The day's budget of Workers AI is spent, by the budget's answer, where there was a readable
/// one.
pub open spec fn budget_spent(answer: Option<JsonView>) -> bool {
    match answer {
        Some(doc) => true_at(doc, "exhausted"@),
        None => false,
    }
}

/// Reads whether the day's budget of Workers AI is spent out of the budget's answer,
/// where there was a readable one.
pub fn fetch_wai_exhausted(answer: Option<&serde_json::Value>) -> (r: bool)
    ensures
        r == budget_spent(opt_contents(answer)),
{
    match answer {
        Some(doc) => true_field(doc, "exhausted"),
        None => false,
    }
}

// ---------------------------------------------------------------------------
// The list
// ---------------------------------------------------------------------------
/// A document with a status, and a text that explains it.
pub open spec fn with_status(document: JsonView, status: Seq<char>, message: Seq<char>) -> JsonView {
    with_member(
        with_member(document, "status"@, JsonView::Str(status)),
        "status_msg"@,
        JsonView::Str(message),
    )
}

/// What the catalogue says of the model in one of its lines.
pub open spec fn listing(id: Seq<char>, owner: Seq<char>, created: i64) -> JsonView {
    JsonView::Object(
        map![
            "id"@ => JsonView::Str(id),
            "object"@ => JsonView::Str("model"@),
            "created"@ => JsonView::Int(created as int),
            "owned_by"@ => JsonView::Str(owner),
        ],
    )
}

/// What is said of a model: what the catalogue says, its health where that is known, and
/// its status where it cannot be used. Only the models of Workers AI suffer from its
/// budget, and only those that Nvidia serves from being blocked by the pool.
pub open spec fn model_json(
    id: Seq<char>,
    owner: Seq<char>,
    created: i64,
    health: JsonView,
    blocked: bool,
    exhausted: bool,
) -> JsonView {
    let known = match field(health, id) {
        Some(h) => with_member(listing(id, owner, created), "health"@, h),
        None => listing(id, owner, created),
    };
    let spent = if owner == "workers-ai"@ && exhausted {
        with_status(known, "exhausted"@, EXHAUSTED_MESSAGE@)
    } else {
        known
    };
    if provider(id) == Provider::Nvidia && blocked {
        with_status(spent, "unavailable"@, UNAVAILABLE_MESSAGE@)
    } else {
        spent
    }
}

/// What is said of the model in one line of the catalogue.
pub open spec fn line_json(
    i: int,
    created: i64,
    health: JsonView,
    blocked: Blocked,
    exhausted: bool,
) -> JsonView {
    model_json(
        catalog_id(i),
        catalog_owner(i),
        created,
        health,
        blocked.until(catalog_id(i)) is Some,
        exhausted,
    )
}

/// The list of models, in the order of the catalogue.
pub open spec fn models_json(
    created: i64,
    health: JsonView,
    blocked: Blocked,
    exhausted: bool,
) -> JsonView {
    JsonView::Object(
        map![
            "object"@ => JsonView::Str("list"@),
            "created"@ => JsonView::Int(created as int),
            "data"@ => JsonView::Array(
                Seq::new(
                    CATALOG_LEN as nat,
                    |i: int| line_json(i, created, health, blocked, exhausted),
                ),
            ),
        ],
    )
}

/// Gives a document a status, and a text that explains it.
fn set_status(document: serde_json::Value, status: &str, message: &str) -> (r: serde_json::Value)
    requires
        json_contents(document) is Object,
    ensures
        json_contents(r) == with_status(json_contents(document), status@, message@),
{
    with(with(document, "status", of_text(status)), "status_msg", of_text(message))
}

/// Writes what is said of a model.
pub fn model_document(
    id: &str,
    owner: &str,
    created: i64,
    health: &serde_json::Value,
    blocked: bool,
    exhausted: bool,
) -> (r: serde_json::Value)
    ensures
        json_contents(r) == model_json(
            id@,
            owner@,
            created,
            json_contents(*health),
            blocked,
            exhausted,
        ),
{
    let mut m = with(
        with(
            with(with(object(), "id", of_text(id)), "object", of_text("model")),
            "created",
            of_signed(created),
        ),
        "owned_by",
        of_text(owner),
    );
    if let Some(h) = get(health, id) {
        m = with(m, "health", h.clone());
    }
    if *owner == *"workers-ai" && exhausted {
        m = set_status(m, "exhausted", EXHAUSTED_MESSAGE);
    }
    let nvidia = match provider_of(id) {
        Provider::Nvidia => true,
        _ => false,
    };
    if nvidia && blocked {
        m = set_status(m, "unavailable", UNAVAILABLE_MESSAGE);
    }
    m
}

/// Writes the list of models.
pub fn models_document(
    created: i64,
    health: &serde_json::Value,
    blocked: &Blocked,
    exhausted: bool,
) -> (r: serde_json::Value)
    ensures
        json_contents(r) == models_json(created, json_contents(*health), *blocked, exhausted),
{
    let mut data: Vec<serde_json::Value> = Vec::new();
    let ghost line = |i: int| line_json(i, created, json_contents(*health), *blocked, exhausted);
    let mut i: usize = 0;
    while i < CATALOG_LEN
        invariant
            i <= CATALOG_LEN,
            line == (|i: int|
                line_json(i, created, json_contents(*health), *blocked, exhausted)),
            documents(data@) =~= Seq::new(i as nat, line),
        decreases CATALOG_LEN - i,
    {
        let ghost before = data@;
        let id = MODEL_CATALOG[i].0;
        let owner = MODEL_CATALOG[i].1;
        let is_blocked = blocked.get(id).is_some();
        data.push(model_document(id, owner, created, health, is_blocked, exhausted));
        i += 1;
        assert(documents(data@) =~= documents(before).push(line(i - 1)));
        assert(documents(data@) =~= Seq::new(i as nat, line));
    }
    with(
        with(with(object(), "object", of_text("list")), "created", of_signed(created)),
        "data",
        of_list(data),
    )
}

/// Answers a request for the list of models, with the text that is cached.
pub fn handle_models(
    created: i64,
    health: &serde_json::Value,
    blocked: &Blocked,
    exhausted: bool,
) -> (r: (Reply, String))
    ensures
        r.0@ == success(models_json(created, json_contents(*health), *blocked, exhausted)),
        r.1@ == json_text(models_json(created, json_contents(*health), *blocked, exhausted)),
{
    let document = models_document(created, health, blocked, exhausted);
    let text = to_text(&document);
    (json_res(document), text)
}

/// Chooses the headers with which a cached list is given out.
pub fn cached_headers() -> (r: Vec<(String, String)>)
    ensures
        header_texts(r@) == seq![("Content-Type"@, "application/json; charset=utf-8"@)] + cors(),
{
    let mut headers: Vec<(String, String)> = Vec::new();
    add_header(&mut headers, "Content-Type", "application/json; charset=utf-8");
    assert(header_texts(headers@) =~= seq![("Content-Type"@, "application/json; charset=utf-8"@)]);
    cors_headers(&mut headers);
    headers
}

// ---------------------------------------------------------------------------
// Isolation
// ---------------------------------------------------------------------------
/// What the pool blocks changes nothing for a model that Nvidia does not serve.
pub proof fn law_blocking_is_isolated(
    i: int,
    created: i64,
    health: JsonView,
    blocked1: Blocked,
    blocked2: Blocked,
    exhausted: bool,
)
    requires
        0 <= i < CATALOG_LEN,
        provider(catalog_id(i)) != Provider::Nvidia,
    ensures
        line_json(i, created, health, blocked1, exhausted) == line_json(
            i,
            created,
            health,
            blocked2,
            exhausted,
        ),
{
}

/// The budget of Workers AI changes nothing for a model of another owner.
pub proof fn law_budget_is_isolated(
    i: int,
    created: i64,
    health: JsonView,
    blocked: Blocked,
)
    requires
        0 <= i < CATALOG_LEN,
        catalog_owner(i) != "workers-ai"@,
    ensures
        line_json(i, created, health, blocked, true) == line_json(
            i,
            created,
            health,
            blocked,
            false,
        ),
{
}

/// Every model of the catalogue is listed, in its order, under its own name and owner,
/// whatever its health and its status.
pub proof fn law_whole_catalogue_is_listed(
    created: i64,
    health: JsonView,
    blocked: Blocked,
    exhausted: bool,
    i: int,
)
    requires
        0 <= i < CATALOG_LEN,
    ensures
        text_at(line_json(i, created, health, blocked, exhausted), "id"@) == Some(catalog_id(i)),
        text_at(line_json(i, created, health, blocked, exhausted), "owned_by"@) == Some(
            catalog_owner(i),
        ),
        field(models_json(created, health, blocked, exhausted), "data"@) matches Some(
            JsonView::Array(data),
        ) && data.len() == CATALOG_LEN && data[i] == line_json(
            i,
            created,
            health,
            blocked,
            exhausted,
        ),
{
    reveal_strlit("id");
    reveal_strlit("object");
    reveal_strlit("created");
    reveal_strlit("owned_by");
    reveal_strlit("health");
    reveal_strlit("status");
    reveal_strlit("status_msg");
    reveal_strlit("data");
    assert("id"@.len() == 2 && "data"@.len() == 4 && "object"@.len() == 6 && "created"@.len() == 7
        && "owned_by"@.len() == 8 && "status_msg"@.len() == 10);
    assert("health"@.len() == 6 && "status"@.len() == 6);
    assert("health"@[0] != "object"@[0]);
    assert("status"@[0] != "object"@[0]);
}

/// A model is said to be unavailable exactly where Nvidia serves it and the pool blocks it,
/// and to be exhausted exactly where Workers AI owns it and its budget is spent.
pub proof fn law_status_has_its_cause(
    i: int,
    created: i64,
    health: JsonView,
    blocked: Blocked,
    exhausted: bool,
)
    requires
        0 <= i < CATALOG_LEN,
    ensures
        ({
            let status = text_at(line_json(i, created, health, blocked, exhausted), "status"@);
            &&& status == Some("unavailable"@) <==> provider(catalog_id(i)) == Provider::Nvidia
                && blocked.until(catalog_id(i)) is Some
            &&& status == Some("exhausted"@) <==> catalog_owner(i) == "workers-ai"@ && exhausted
        }),
{
    reveal_strlit("id");
    reveal_strlit("object");
    reveal_strlit("created");
    reveal_strlit("owned_by");
    reveal_strlit("health");
    reveal_strlit("status");
    reveal_strlit("status_msg");
    reveal_strlit("unavailable");
    reveal_strlit("exhausted");
    assert("id"@.len() == 2 && "object"@.len() == 6 && "created"@.len() == 7 && "owned_by"@.len()
        == 8 && "status"@.len() == 6 && "status_msg"@.len() == 10 && "health"@.len() == 6);
    assert("health"@[0] != "status"@[0]);
    assert("object"@[0] != "status"@[0]);
    assert("unavailable"@[0] != "exhausted"@[0]);
    if catalog_owner(i) == "workers-ai"@ {
        law_nvidia_serves_none_of_workers_ai(i);
    }
}

/// The members of a list of models are told apart by their names.
proof fn lemma_model_keys()
    ensures
        "id"@.len() == 2,
        "data"@.len() == 4,
        "object"@.len() == 6 && "object"@[0] == 'o',
        "health"@.len() == 6 && "health"@[0] == 'h',
        "status"@.len() == 6 && "status"@[0] == 's',
        "created"@.len() == 7,
        "owned_by"@.len() == 8,
        "status_msg"@.len() == 10,
{
    reveal_strlit("id");
    reveal_strlit("object");
    reveal_strlit("created");
    reveal_strlit("owned_by");
    reveal_strlit("health");
    reveal_strlit("status");
    reveal_strlit("status_msg");
    reveal_strlit("data");
}

/// What is said of a model: its name, its owner and when it was listed, its own health where
/// that is known, and why it cannot be used where it cannot.
pub proof fn law_models_say_what_they_name(
    id: Seq<char>,
    owner: Seq<char>,
    created: i64,
    health: JsonView,
    blocked: bool,
    exhausted: bool,
)
    ensures
        ({
            let m = model_json(id, owner, created, health, blocked, exhausted);
            &&& field(m, "id"@) == Some(JsonView::Str(id))
            &&& field(m, "object"@) == Some(JsonView::Str("model"@))
            &&& field(m, "created"@) == Some(JsonView::Int(created as int))
            &&& field(m, "owned_by"@) == Some(JsonView::Str(owner))
            &&& field(m, "health"@) == field(health, id)
            &&& provider(id) == Provider::Nvidia && blocked ==> field(m, "status"@) == Some(
                JsonView::Str("unavailable"@),
            ) && field(m, "status_msg"@) == Some(
                JsonView::Str(
                    "该模型在上游不存在或已被拒绝（3+ 密钥无访问权限），10 分钟后自动重试"@,
                ),
            )
            &&& !(provider(id) == Provider::Nvidia && blocked) && owner == "workers-ai"@
                && exhausted ==> field(m, "status"@) == Some(JsonView::Str("exhausted"@)) && field(
                m,
                "status_msg"@,
            ) == Some(
                JsonView::Str(
                    "Workers AI 今日免费额度已用尽，请等待每天 00:00 UTC 额度自动重置后重试，或切换其他模型（如 build/ 前缀的 Nvidia 模型）"@,
                ),
            )
            &&& !(provider(id) == Provider::Nvidia && blocked) && !(owner == "workers-ai"@
                && exhausted) ==> field(m, "status"@) is None && field(m, "status_msg"@) is None
        }),
{
    lemma_model_keys();
}

/// The list says that it is one, when it was made, and what is said of each model.
pub proof fn law_lists_say_what_they_are(
    created: i64,
    health: JsonView,
    blocked: Blocked,
    exhausted: bool,
)
    ensures
        field(models_json(created, health, blocked, exhausted), "object"@) == Some(
            JsonView::Str("list"@),
        ),
        field(models_json(created, health, blocked, exhausted), "created"@) == Some(
            JsonView::Int(created as int),
        ),
        field(models_json(created, health, blocked, exhausted), "data"@) matches Some(
            JsonView::Array(data),
        ) && data.len() == 144,
        MODEL_CACHE_TTL == 30,
        MODEL_CACHE_KEY@ == "models_list"@,
{
    lemma_model_keys();
}

/// A model is blocked until the time in the last item that names it with a time; items that
/// name another model, or lack a name or a time, do not count.
pub proof fn law_blocks_are_read(
    items: Seq<JsonView>,
    item: JsonView,
    model: Seq<char>,
    until: i64,
)
    ensures
        until_in(Seq::empty(), model) is None,
        field(item, "model"@) == Some(JsonView::Str(model)) && field(item, "until"@) == Some(
            JsonView::Int(until as int),
        ) ==> until_in(items.push(item), model) == Some(until),
        field(item, "model"@) != Some(JsonView::Str(model)) || !(field(item, "until"@)
            matches Some(JsonView::Int(t)) && i64::MIN <= t <= i64::MAX) ==> until_in(
            items.push(item),
            model,
        ) == until_in(items, model),
{
    assert(items.push(item).drop_last() =~= items);
}

/// The blocked models are those in the list `blocked` of the pool's answer, and none where
/// there is no such list.
pub proof fn law_blocks_are_found(doc: JsonView, items: Seq<JsonView>, model: Seq<char>)
    ensures
        field(doc, "blocked"@) == Some(JsonView::Array(items)) ==> blocked_until(Some(doc), model)
            == until_in(items, model),
        !(field(doc, "blocked"@) matches Some(JsonView::Array(_))) ==> blocked_until(
            Some(doc),
            model,
        ) is None,
        blocked_until(None, model) is None,
{
}

/// The budget is spent exactly where its answer says so.
pub proof fn law_spent_budgets_are_told(doc: JsonView)
    ensures
        budget_spent(Some(doc)) <==> field(doc, "exhausted"@) == Some(JsonView::Bool(true)),
        !budget_spent(None),
{
}

} // verus!
