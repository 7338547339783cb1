//! Chats, speech and other services through Workers AI, which has a daily budget.
use crate::acu::{can_name_model, names_model};
use crate::body::{not_json, not_json_reply, parsed_view};
use crate::json::{
    JsonView, field, get, json_bytes, json_contents, json_parse, of_text, of_unsigned, parse,
    takes_members, text_field_or_empty, text_or_empty, to_bytes, true_at, true_field, with, with_member,
};
use crate::reply::{Reply, ReplyView, err_res, error_reply};
use crate::service::Service;
use crate::text::{after, around, begins, join, law_prefix_and_rest, strip_prefix};
use crate::upstream::{
    Method, RequestView, UpstreamRequest, header_value, keyed_post, law_keys_are_sent_as_bearers,
    post_with_key,
};
use vstd::prelude::*;

verus! {

pub const WAI_UNAVAILABLE: &'static str = "Workers AI unavailable";

pub const CHAT_EXHAUSTED: &'static str =
    "Workers AI 今日免费额度已用尽，请等待每天 00:00 UTC 额度自动重置后重试，或切换其他模型（如 build/ 前缀的 Nvidia 模型）";

pub const SPEECH_EXHAUSTED: &'static str =
    "Workers AI 今日免费额度已用尽，请等待每天 00:00 UTC 额度自动重置后重试";

pub const SPEECH_FAILED: &'static str = "audio 上游错误";

/// What the account of Workers AI stands behind in a web address.
pub const ACCOUNTS: &'static str = "https://api.cloudflare.com/client/v4/accounts/";

/// How much a chat may say where the caller sets no limit.
pub const DEFAULT_MAX_TOKENS: u64 = 1024;

/// How many units of the budget make one neuron.
pub const UNITS: u128 = 2048;

/// What one call for speech takes of the budget, in units.
pub const SPEECH_AMOUNT: u128 = 20480;

/// What a caller is told when the day's budget is spent.
pub open spec fn exhausted(service: Service) -> Seq<char> {
    match service {
        Service::Speech => SPEECH_EXHAUSTED@,
        _ => CHAT_EXHAUSTED@,
    }
}

/// What a caller is told when Workers AI is not reached.
pub open spec fn failed(service: Service) -> Seq<char> {
    match service {
        Service::Speech => SPEECH_FAILED@,
        _ => WAI_UNAVAILABLE@,
    }
}

/// The reply to a caller for whom the budget cannot be had.
pub fn budget_unavailable() -> (r: Reply)
    ensures
        r@ == error_reply(500, WAI_UNAVAILABLE@),
{
    err_res(500, WAI_UNAVAILABLE)
}

/// What a chat is taken to need of the budget, in units: one and a half neurons for each
/// 1024 bytes of its body, and one neuron at least.
pub open spec fn chat_amount(len: nat) -> nat {
    if 3 * len < UNITS {
        UNITS as nat
    } else {
        3 * len
    }
}

/// Estimates what a chat needs of the budget, in units.
pub fn estimate_wai_neurons(body: &[u8]) -> (r: u128)
    ensures
        r == chat_amount(body@.len()),
{
    let n: u128 = body.len() as u128;
    if 3 * n < UNITS {
        UNITS
    } else {
        3 * n
    }
}

/// What came back from the budget.
pub enum Checked {
    /// A document.
    Document(serde_json::Value),
    /// Something that is no document.
    Unreadable,
    /// Nothing: the budget was not reached.
    Unreached,
}

/// What came back from the budget.
pub enum CheckedView {
    Document(JsonView),
    Unreadable,
    Unreached,
}

impl View for Checked {
    type V = CheckedView;

    open spec fn view(&self) -> CheckedView {
        match *self {
            Checked::Document(v) => CheckedView::Document(json_contents(v)),
            Checked::Unreadable => CheckedView::Unreadable,
            Checked::Unreached => CheckedView::Unreached,
        }
    }
}

/// An account of Workers AI, and the token that opens it.
pub struct Account {
    pub id: String,
    pub token: String,
}

/// What an account of Workers AI is.
pub struct AccountView {
    pub id: Seq<char>,
    pub token: Seq<char>,
}

impl View for Account {
    type V = AccountView;

    open spec fn view(&self) -> AccountView {
        AccountView { id: self.id@, token: self.token@ }
    }
}

/// The account that the budget gives for a service, or the reply to the caller where it
/// gives none. What cannot be read allows nothing.
pub open spec fn account(service: Service, checked: CheckedView) -> Result<AccountView, ReplyView> {
    match checked {
        CheckedView::Document(doc) => if !true_at(doc, "allowed"@) {
            Err(error_reply(429, exhausted(service)))
        } else if text_or_empty(doc, "account_id"@).len() == 0 || text_or_empty(
            doc,
            "token"@,
        ).len() == 0 {
            Err(error_reply(502, WAI_UNAVAILABLE@))
        } else {
            Ok(
                AccountView {
                    id: text_or_empty(doc, "account_id"@),
                    token: text_or_empty(doc, "token"@),
                },
            )
        },
        CheckedView::Unreadable => Err(error_reply(429, exhausted(service))),
        CheckedView::Unreached => Err(error_reply(502, WAI_UNAVAILABLE@)),
    }
}

/// The reply to a caller when the day's budget is spent.
fn exhausted_reply(service: Service) -> (r: Reply)
    ensures
        r@ == error_reply(429, exhausted(service)),
{
    match service {
        Service::Speech => err_res(429, SPEECH_EXHAUSTED),
        _ => err_res(429, CHAT_EXHAUSTED),
    }
}

/// Reads the account that the budget gives for a service.
pub fn check_budget(service: Service, checked: &Checked) -> (r: Result<Account, Reply>)
    ensures
        match r {
            Ok(a) => account(service, checked@) == Ok::<AccountView, ReplyView>(a@),
            Err(e) => account(service, checked@) == Err::<AccountView, ReplyView>(e@),
        },
{
    match checked {
        Checked::Document(doc) => {
            if !true_field(doc, "allowed") {
                return Err(exhausted_reply(service));
            }
            let id = text_field_or_empty(doc, "account_id");
            let token = text_field_or_empty(doc, "token");
            if id.as_str().is_empty() || token.as_str().is_empty() {
                return Err(err_res(502, WAI_UNAVAILABLE));
            }
            Ok(Account { id, token })
        },
        Checked::Unreadable => Err(exhausted_reply(service)),
        Checked::Unreached => Err(err_res(502, WAI_UNAVAILABLE)),
    }
}

/// The name by which Workers AI knows a model, given without the prefix.
pub open spec fn full_name(bare: Seq<char>) -> Seq<char> {
    if bare == "llama-3.2-1b"@ {
        "meta/llama-3.2-1b-instruct"@
    } else if bare == "llama-3.2-3b"@ {
        "meta/llama-3.2-3b-instruct"@
    } else if bare == "llama-3.1-8b"@ {
        "meta/llama-3.1-8b-instruct-fp8-fast"@
    } else if bare == "llama-3.3-70b"@ {
        "meta/llama-3.3-70b-instruct-fp8-fast"@
    } else if bare == "mistral-7b"@ {
        "mistralai/mistral-7b-instruct-v0.1"@
    } else if bare == "qwen1.5-7b"@ {
        "qwen/qwen1.5-7b-chat-awq"@
    } else if bare == "deepseek-r1-32b"@ {
        "deepseek-ai/deepseek-r1-distill-qwen-32b"@
    } else if bare == "qwen2.5-coder-32b"@ {
        "qwen/qwen2.5-coder-32b-instruct"@
    } else if bare == "qwq-32b"@ {
        "qwen/qwq-32b"@
    } else if bare == "gemma-3-12b"@ {
        "google/gemma-3-12b-it"@
    } else if bare == "mistral-small-24b"@ {
        "mistralai/mistral-small-3.1-24b-instruct"@
    } else if bare == "melotts"@ {
        "myshell-ai/melotts"@
    } else {
        bare
    }
}

/// The name by which Workers AI knows a model.
pub open spec fn wai_model(model: Seq<char>) -> Seq<char> {
    match after(model, "workers-ai/"@) {
        Some(bare) => full_name(bare),
        None => full_name(model),
    }
}

/// Looks up the name by which Workers AI knows a model.
pub fn wai_upstream_model(model: &str) -> (r: String)
    ensures
        r@ == wai_model(model@),
{
    let bare = match strip_prefix(model, "workers-ai/") {
        Some(b) => b,
        None => model,
    };
    let full: &str = if *bare == *"llama-3.2-1b" {
        "meta/llama-3.2-1b-instruct"
    } else if *bare == *"llama-3.2-3b" {
        "meta/llama-3.2-3b-instruct"
    } else if *bare == *"llama-3.1-8b" {
        "meta/llama-3.1-8b-instruct-fp8-fast"
    } else if *bare == *"llama-3.3-70b" {
        "meta/llama-3.3-70b-instruct-fp8-fast"
    } else if *bare == *"mistral-7b" {
        "mistralai/mistral-7b-instruct-v0.1"
    } else if *bare == *"qwen1.5-7b" {
        "qwen/qwen1.5-7b-chat-awq"
    } else if *bare == *"deepseek-r1-32b" {
        "deepseek-ai/deepseek-r1-distill-qwen-32b"
    } else if *bare == *"qwen2.5-coder-32b" {
        "qwen/qwen2.5-coder-32b-instruct"
    } else if *bare == *"qwq-32b" {
        "qwen/qwq-32b"
    } else if *bare == *"gemma-3-12b" {
        "google/gemma-3-12b-it"
    } else if *bare == *"mistral-small-24b" {
        "mistralai/mistral-small-3.1-24b-instruct"
    } else if *bare == *"melotts" {
        "myshell-ai/melotts"
    } else {
        bare
    };
    full.to_string()
}

/// The request for a service, with a document, in an account.
pub open spec fn wai_request(service: Service, account: AccountView, document: JsonView) -> RequestView {
    keyed_post(
        ACCOUNTS@ + account.id + "/ai/v1"@ + service.path(),
        account.token,
        json_bytes(document),
    )
}

/// Builds the request for a service, with a document, in an account.
fn request(service: Service, account: &Account, document: &serde_json::Value) -> (r: UpstreamRequest)
    ensures
        r@ == wai_request(service, account@, json_contents(*document)),
{
    let url = join(around(ACCOUNTS, account.id.as_str(), "/ai/v1").as_str(), service.location());
    post_with_key(url.as_str(), account.token.as_str(), to_bytes(document).as_slice())
}

/// The document of a chat with a limit on how much is said: the one that the caller
/// set, else the default.
pub open spec fn limited(document: JsonView) -> JsonView {
    if field(document, "max_tokens"@) is None {
        with_member(document, "max_tokens"@, JsonView::Int(DEFAULT_MAX_TOKENS as int))
    } else {
        document
    }
}

/// A document that names the model in the way of Workers AI.
pub open spec fn renamed(document: JsonView, model: Seq<char>) -> JsonView {
    with_member(document, "model"@, JsonView::Str(wai_model(model)))
}

/// What is sent for a document that asks for a service: the document with the model's name
/// in the way of Workers AI and, for a chat, with a limit.
pub open spec fn sent(service: Service, document: JsonView, model: Seq<char>) -> JsonView {
    if service == Service::Chat {
        renamed(limited(document), model)
    } else {
        renamed(document, model)
    }
}

/// The request for a service whose body was parsed, or the reply to a body that is no JSON.
pub open spec fn body_request(
    service: Service,
    account: AccountView,
    model: Seq<char>,
    parsed: Result<JsonView, Seq<char>>,
) -> Result<RequestView, ReplyView> {
    match parsed {
        Ok(document) => Ok(wai_request(service, account, sent(service, document, model))),
        Err(reason) => Err(error_reply(400, not_json(reason))),
    }
}

/// Builds the request for a service whose body was parsed.
pub fn prepare_body(
    service: Service,
    account: &Account,
    model: &str,
    parsed: Result<serde_json::Value, String>,
) -> (r: Result<UpstreamRequest, Reply>)
    requires
        can_name_model(parsed_view(parsed)),
    ensures
        match r {
            Ok(q) => body_request(service, account@, model@, parsed_view(parsed)) == Ok::<
                RequestView,
                ReplyView,
            >(q@),
            Err(e) => body_request(service, account@, model@, parsed_view(parsed)) == Err::<
                RequestView,
                ReplyView,
            >(e@),
        },
{
    match parsed {
        Ok(document) => {
            let chat = match service {
                Service::Chat => true,
                _ => false,
            };
            let set = get(&document, "max_tokens").is_some();
            let body = if chat && !set {
                with(document, "max_tokens", of_unsigned(DEFAULT_MAX_TOKENS))
            } else {
                document
            };
            let name = wai_upstream_model(model);
            let named = with(body, "model", of_text(name.as_str()));
            Ok(request(service, account, &named))
        },
        Err(e) => Err(not_json_reply(e.as_str())),
    }
}

/// Builds the request for a chat, or for another service that takes a body, unless the body
/// is JSON that can take no name of a model.
pub fn proxy_workers_ai_chat(service: Service, account: &Account, model: &str, body: &[u8]) -> (r:
    Option<Result<UpstreamRequest, Reply>>)
    ensures
        match r {
            Some(Ok(q)) => can_name_model(json_parse(body@)) && body_request(
                service,
                account@,
                model@,
                json_parse(body@),
            ) == Ok::<RequestView, ReplyView>(q@),
            Some(Err(e)) => can_name_model(json_parse(body@)) && body_request(
                service,
                account@,
                model@,
                json_parse(body@),
            ) == Err::<RequestView, ReplyView>(e@),
            None => !can_name_model(json_parse(body@)),
        },
{
    let parsed = parse(body);
    if names_model(&parsed) {
        Some(prepare_body(service, account, model, parsed))
    } else {
        None
    }
}

/// Builds the request for speech.
pub fn speech_request(account: &Account, model: &str, document: serde_json::Value) -> (r:
    UpstreamRequest)
    requires
        takes_members(json_contents(document)),
    ensures
        r@ == wai_request(Service::Speech, account@, renamed(json_contents(document), model@)),
{
    let name = wai_upstream_model(model);
    let named = with(document, "model", of_text(name.as_str()));
    request(Service::Speech, account, &named)
}

/// The reply to a caller when Workers AI is not reached.
pub fn not_reached(service: Service) -> (r: Reply)
    ensures
        r@ == error_reply(502, failed(service)),
{
    match service {
        Service::Speech => err_res(502, SPEECH_FAILED),
        _ => err_res(502, WAI_UNAVAILABLE),
    }
}

/// Workers AI is called for nobody whom the budget does not allow.
pub proof fn law_budget_is_kept(service: Service, checked: CheckedView)
    ensures
        account(service, checked) is Ok ==> checked is Document && true_at(
            checked->Document_0,
            "allowed"@,
        ),
        checked is Document && !true_at(checked->Document_0, "allowed"@) ==> account(service, checked)
            == Err::<AccountView, ReplyView>(error_reply(429, exhausted(service))),
{
}

/// The limit that a caller sets is kept, and without one the default is set.
pub proof fn law_chat_has_a_limit(document: JsonView, model: Seq<char>)
    requires
        takes_members(document),
    ensures
        field(renamed(limited(document), model), "max_tokens"@) == Some(
            match field(document, "max_tokens"@) {
                Some(limit) => limit,
                None => JsonView::Int(1024),
            },
        ),
{
    reveal_strlit("max_tokens");
    reveal_strlit("model");
    assert("max_tokens"@.len() != "model"@.len());
}

/// What a chat is taken to need never falls below one neuron, and grows with its body.
pub proof fn law_longer_chats_need_more(a: nat, b: nat)
    requires
        a <= b,
    ensures
        UNITS <= chat_amount(a) <= chat_amount(b),
{
}

// ---------------------------------------------------------------------------
// What is sent
// ---------------------------------------------------------------------------
/// The short names are told apart by their texts.
proof fn lemma_short_names()
    ensures
        "qwq-32b"@.len() == 7 && "qwq-32b"@[0] == 'q',
        "melotts"@.len() == 7 && "melotts"@[0] == 'm',
        "mistral-7b"@.len() == 10 && "mistral-7b"@[0] == 'm',
        "qwen1.5-7b"@.len() == 10 && "qwen1.5-7b"@[0] == 'q',
        "gemma-3-12b"@.len() == 11,
        "llama-3.2-1b"@.len() == 12 && "llama-3.2-1b"@[10] == '1',
        "llama-3.2-3b"@.len() == 12 && "llama-3.2-3b"@[10] == '3',
        "llama-3.1-8b"@.len() == 12 && "llama-3.1-8b"@[10] == '8',
        "llama-3.3-70b"@.len() == 13,
        "deepseek-r1-32b"@.len() == 15,
        "qwen2.5-coder-32b"@.len() == 17 && "qwen2.5-coder-32b"@[0] == 'q',
        "mistral-small-24b"@.len() == 17 && "mistral-small-24b"@[0] == 'm',
{
    reveal_strlit("llama-3.2-1b");
    reveal_strlit("llama-3.2-3b");
    reveal_strlit("llama-3.1-8b");
    reveal_strlit("llama-3.3-70b");
    reveal_strlit("mistral-7b");
    reveal_strlit("qwen1.5-7b");
    reveal_strlit("deepseek-r1-32b");
    reveal_strlit("qwen2.5-coder-32b");
    reveal_strlit("qwq-32b");
    reveal_strlit("gemma-3-12b");
    reveal_strlit("mistral-small-24b");
    reveal_strlit("melotts");
}

/// A name begins with the prefix only where its first character is the prefix's.
proof fn lemma_no_prefix(name: Seq<char>)
    requires
        name.len() == 0 || name[0] != 'w',
    ensures
        after(name, "workers-ai/"@) is None,
{
    reveal_strlit("workers-ai/");
    if begins(name, "workers-ai/"@) {
        assert(name.take(11)[0] == name[0]);
    }
}

/// Each short name stands for one model of Workers AI, with the prefix and without it.
pub proof fn law_models_have_full_names()
    ensures
        wai_model("workers-ai/"@ + "llama-3.2-1b"@) == "meta/llama-3.2-1b-instruct"@ && wai_model("llama-3.2-1b"@)
            == "meta/llama-3.2-1b-instruct"@,
        wai_model("workers-ai/"@ + "llama-3.2-3b"@) == "meta/llama-3.2-3b-instruct"@ && wai_model("llama-3.2-3b"@)
            == "meta/llama-3.2-3b-instruct"@,
        wai_model("workers-ai/"@ + "llama-3.1-8b"@) == "meta/llama-3.1-8b-instruct-fp8-fast"@ && wai_model("llama-3.1-8b"@)
            == "meta/llama-3.1-8b-instruct-fp8-fast"@,
        wai_model("workers-ai/"@ + "llama-3.3-70b"@) == "meta/llama-3.3-70b-instruct-fp8-fast"@ && wai_model("llama-3.3-70b"@)
            == "meta/llama-3.3-70b-instruct-fp8-fast"@,
        wai_model("workers-ai/"@ + "mistral-7b"@) == "mistralai/mistral-7b-instruct-v0.1"@ && wai_model("mistral-7b"@)
            == "mistralai/mistral-7b-instruct-v0.1"@,
        wai_model("workers-ai/"@ + "qwen1.5-7b"@) == "qwen/qwen1.5-7b-chat-awq"@ && wai_model("qwen1.5-7b"@)
            == "qwen/qwen1.5-7b-chat-awq"@,
        wai_model("workers-ai/"@ + "deepseek-r1-32b"@) == "deepseek-ai/deepseek-r1-distill-qwen-32b"@ && wai_model("deepseek-r1-32b"@)
            == "deepseek-ai/deepseek-r1-distill-qwen-32b"@,
        wai_model("workers-ai/"@ + "qwen2.5-coder-32b"@) == "qwen/qwen2.5-coder-32b-instruct"@ && wai_model("qwen2.5-coder-32b"@)
            == "qwen/qwen2.5-coder-32b-instruct"@,
        wai_model("workers-ai/"@ + "qwq-32b"@) == "qwen/qwq-32b"@ && wai_model("qwq-32b"@)
            == "qwen/qwq-32b"@,
        wai_model("workers-ai/"@ + "gemma-3-12b"@) == "google/gemma-3-12b-it"@ && wai_model("gemma-3-12b"@)
            == "google/gemma-3-12b-it"@,
        wai_model("workers-ai/"@ + "mistral-small-24b"@) == "mistralai/mistral-small-3.1-24b-instruct"@ && wai_model("mistral-small-24b"@)
            == "mistralai/mistral-small-3.1-24b-instruct"@,
        wai_model("workers-ai/"@ + "melotts"@) == "myshell-ai/melotts"@ && wai_model("melotts"@)
            == "myshell-ai/melotts"@,
{
    lemma_short_names();
    reveal_strlit("llama-3.2-1b");
    law_prefix_and_rest("llama-3.2-1b"@, "workers-ai/"@, "llama-3.2-1b"@);
    assert("llama-3.2-1b"@[0] != 'w');
    lemma_no_prefix("llama-3.2-1b"@);
    reveal_strlit("llama-3.2-3b");
    law_prefix_and_rest("llama-3.2-3b"@, "workers-ai/"@, "llama-3.2-3b"@);
    assert("llama-3.2-3b"@[0] != 'w');
    lemma_no_prefix("llama-3.2-3b"@);
    reveal_strlit("llama-3.1-8b");
    law_prefix_and_rest("llama-3.1-8b"@, "workers-ai/"@, "llama-3.1-8b"@);
    assert("llama-3.1-8b"@[0] != 'w');
    lemma_no_prefix("llama-3.1-8b"@);
    reveal_strlit("llama-3.3-70b");
    law_prefix_and_rest("llama-3.3-70b"@, "workers-ai/"@, "llama-3.3-70b"@);
    assert("llama-3.3-70b"@[0] != 'w');
    lemma_no_prefix("llama-3.3-70b"@);
    reveal_strlit("mistral-7b");
    law_prefix_and_rest("mistral-7b"@, "workers-ai/"@, "mistral-7b"@);
    assert("mistral-7b"@[0] != 'w');
    lemma_no_prefix("mistral-7b"@);
    reveal_strlit("qwen1.5-7b");
    law_prefix_and_rest("qwen1.5-7b"@, "workers-ai/"@, "qwen1.5-7b"@);
    assert("qwen1.5-7b"@[0] != 'w');
    lemma_no_prefix("qwen1.5-7b"@);
    reveal_strlit("deepseek-r1-32b");
    law_prefix_and_rest("deepseek-r1-32b"@, "workers-ai/"@, "deepseek-r1-32b"@);
    assert("deepseek-r1-32b"@[0] != 'w');
    lemma_no_prefix("deepseek-r1-32b"@);
    reveal_strlit("qwen2.5-coder-32b");
    law_prefix_and_rest("qwen2.5-coder-32b"@, "workers-ai/"@, "qwen2.5-coder-32b"@);
    assert("qwen2.5-coder-32b"@[0] != 'w');
    lemma_no_prefix("qwen2.5-coder-32b"@);
    reveal_strlit("qwq-32b");
    law_prefix_and_rest("qwq-32b"@, "workers-ai/"@, "qwq-32b"@);
    assert("qwq-32b"@[0] != 'w');
    lemma_no_prefix("qwq-32b"@);
    reveal_strlit("gemma-3-12b");
    law_prefix_and_rest("gemma-3-12b"@, "workers-ai/"@, "gemma-3-12b"@);
    assert("gemma-3-12b"@[0] != 'w');
    lemma_no_prefix("gemma-3-12b"@);
    reveal_strlit("mistral-small-24b");
    law_prefix_and_rest("mistral-small-24b"@, "workers-ai/"@, "mistral-small-24b"@);
    assert("mistral-small-24b"@[0] != 'w');
    lemma_no_prefix("mistral-small-24b"@);
    reveal_strlit("melotts");
    law_prefix_and_rest("melotts"@, "workers-ai/"@, "melotts"@);
    assert("melotts"@[0] != 'w');
    lemma_no_prefix("melotts"@);
}

/// A name that is not one of the short names is sent as it is, without the prefix.
pub proof fn law_other_models_keep_their_names(name: Seq<char>)
    requires
        name != "llama-3.2-1b"@,
        name != "llama-3.2-3b"@,
        name != "llama-3.1-8b"@,
        name != "llama-3.3-70b"@,
        name != "mistral-7b"@,
        name != "qwen1.5-7b"@,
        name != "deepseek-r1-32b"@,
        name != "qwen2.5-coder-32b"@,
        name != "qwq-32b"@,
        name != "gemma-3-12b"@,
        name != "mistral-small-24b"@,
        name != "melotts"@,
    ensures
        wai_model("workers-ai/"@ + name) == name,
        !begins(name, "workers-ai/"@) ==> wai_model(name) == name,
{
    law_prefix_and_rest(name, "workers-ai/"@, name);
}

/// The budget lets a request through exactly where it answers with a document that allows it
/// and gives both an account and a token, and these are used. What cannot be read, or does
/// not say `true`, is a spent budget; what cannot be reached, or lacks either, is a service
/// that is not to be had.
pub proof fn law_budget_answers(service: Service, doc: JsonView)
    ensures
        account(service, CheckedView::Document(doc)) matches Ok(a) ==> field(doc, "allowed"@)
            == Some(JsonView::Bool(true)) && field(doc, "account_id"@) == Some(JsonView::Str(a.id))
            && field(doc, "token"@) == Some(JsonView::Str(a.token)) && a.id.len() > 0
            && a.token.len() > 0,
        field(doc, "allowed"@) != Some(JsonView::Bool(true)) ==> account(
            service,
            CheckedView::Document(doc),
        ) == Err::<AccountView, ReplyView>(error_reply(429, exhausted(service))),
        field(doc, "allowed"@) == Some(JsonView::Bool(true)) && (!(field(doc, "account_id"@)
            matches Some(JsonView::Str(id)) && id.len() > 0) || !(field(doc, "token"@)
            matches Some(JsonView::Str(token)) && token.len() > 0)) ==> account(
            service,
            CheckedView::Document(doc),
        ) == Err::<AccountView, ReplyView>(error_reply(502, "Workers AI unavailable"@)),
        field(doc, "allowed"@) == Some(JsonView::Bool(true)) && (field(doc, "account_id"@)
            matches Some(JsonView::Str(id)) && id.len() > 0) && (field(doc, "token"@)
            matches Some(JsonView::Str(token)) && token.len() > 0) ==> account(
            service,
            CheckedView::Document(doc),
        ) is Ok,
        account(service, CheckedView::Unreadable) == Err::<AccountView, ReplyView>(
            error_reply(429, exhausted(service)),
        ),
        account(service, CheckedView::Unreached) == Err::<AccountView, ReplyView>(
            error_reply(502, "Workers AI unavailable"@),
        ),
{
}

/// What callers of Workers AI are told. Only callers for speech are told otherwise than the
/// rest.
pub proof fn law_failures_are_told(service: Service)
    ensures
        exhausted(Service::Speech)
            == "Workers AI 今日免费额度已用尽，请等待每天 00:00 UTC 额度自动重置后重试"@,
        failed(Service::Speech) == "audio 上游错误"@,
        service != Service::Speech ==> exhausted(service)
            == "Workers AI 今日免费额度已用尽，请等待每天 00:00 UTC 额度自动重置后重试，或切换其他模型（如 build/ 前缀的 Nvidia 模型）"@
            && failed(service) == "Workers AI unavailable"@,
        WAI_UNAVAILABLE@ == "Workers AI unavailable"@,
{
}

/// A request goes to the service in the account that the budget gave, under its token, with
/// the document as JSON.
pub proof fn law_accounts_are_used(service: Service, account: AccountView, document: JsonView)
    ensures
        wai_request(service, account, document).url
            == "https://api.cloudflare.com/client/v4/accounts/"@ + account.id + "/ai/v1"@
            + service.path(),
        wai_request(service, account, document).method == Method::Post,
        wai_request(service, account, document).body == Some(json_bytes(document)),
        header_value(wai_request(service, account, document).headers, "Authorization"@) == Some(
            "Bearer "@ + account.token,
        ),
{
    law_keys_are_sent_as_bearers(
        ACCOUNTS@ + account.id + "/ai/v1"@ + service.path(),
        account.token,
        json_bytes(document),
    );
}

/// What is sent has the model's full name, a chat without a limit gets one of 1024, and
/// every other member is as the caller wrote it.
pub proof fn law_documents_are_completed(
    service: Service,
    document: JsonView,
    model: Seq<char>,
    key: Seq<char>,
)
    requires
        takes_members(document),
    ensures
        field(sent(service, document, model), "model"@) == Some(JsonView::Str(wai_model(model))),
        key != "model"@ && key != "max_tokens"@ ==> field(sent(service, document, model), key)
            == field(document, key),
        field(sent(service, document, model), "max_tokens"@) == (match field(
            document,
            "max_tokens"@,
        ) {
            Some(limit) => Some(limit),
            None => if service == Service::Chat {
                Some(JsonView::Int(1024))
            } else {
                None
            },
        }),
{
    reveal_strlit("max_tokens");
    reveal_strlit("model");
    assert("max_tokens"@.len() != "model"@.len());
}

/// The request for a body that was parsed is the one for its completed document, and a body
/// that is no JSON is refused with 400 and the reason.
pub proof fn law_bodies_are_completed(
    service: Service,
    account: AccountView,
    model: Seq<char>,
    document: JsonView,
    reason: Seq<char>,
)
    ensures
        body_request(service, account, model, Ok(document)) == Ok::<RequestView, ReplyView>(
            wai_request(service, account, sent(service, document, model)),
        ),
        body_request(service, account, model, Err(reason)) == Err::<RequestView, ReplyView>(
            error_reply(400, "请求体不是合法 JSON："@ + reason),
        ),
{
}

/// A chat is taken to need three units for each byte, which is three halves of a neuron for
/// each 1024, or one neuron where that is more, and speech to need ten; a neuron has 2048
/// units.
pub proof fn law_needs_are_estimated(len: nat)
    ensures
        UNITS == 2048,
        chat_amount(len) >= 3 * len,
        chat_amount(len) >= 2048,
        chat_amount(len) == 3 * len || chat_amount(len) == 2048,
        SPEECH_AMOUNT == 20480,
{
}

} // verus!
