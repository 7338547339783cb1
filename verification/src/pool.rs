//! Requests through the pool of Nvidia keys, which are called chats here, whatever
//! service they are for. A try that fails for its key's sake, or for
//! the upstream's, is made again with another key.
use crate::config::{Env, NVIDIA_BASE_DEFAULT, configured, env_or, setting};
use crate::json::{
    JsonView, field, json_contents, object, of_bool, of_text, of_unsigned, opt_contents, text_at,
    text_field, unsigned_at, unsigned_field, with,
};
use crate::outcome::{ErrType, classify_upstream_err, upstream_err};
use crate::reply::{Reply, ReplyView, err_res, error_reply};
use crate::service::Service;
use crate::text::around;
use crate::upstream::{
    Method, RequestView, UNREACHABLE, UpstreamRequest, header_value, keyed_post,
    law_keys_are_sent_as_bearers, post_with_key,
};
use vstd::prelude::*;

verus! {

/// How often a chat is tried.
pub const MAX_ATTEMPTS: u32 = 6;

pub const POOL_UNAVAILABLE: &'static str = "key pool unavailable";

pub const MODEL_BLOCKED: &'static str =
    "该模型在上游已被封锁（3+ 密钥无访问权限），10 分钟后自动重试";

pub const KEYS_BUSY: &'static str = "all keys busy";

pub const RATE_LIMITED: &'static str = "上游限流，请稍后重试";

/// A chat for which a key is to be picked: how often it was tried, and how the last
/// try failed.
#[derive(Clone, Copy, Debug, PartialEq, Eq, Structural)]
pub struct Picking {
    pub attempts: u32,
    pub failure: ErrType,
}

/// A chat that is being tried with a key: how often it was tried before, and which key
/// it is.
#[derive(Clone, Copy, Debug, PartialEq, Eq, Structural)]
pub struct Trying {
    pub attempts: u32,
    pub key_idx: u32,
}

/// What follows when the pool was asked for a key.
pub enum PickStep {
    /// The chat is tried.
    Try(Trying, UpstreamRequest),
    /// The chat is over.
    Answer(Reply),
}

/// What follows when the pool was asked for a key.
pub enum PickStepView {
    Try(Trying, RequestView),
    Answer(ReplyView),
}

impl View for PickStep {
    type V = PickStepView;

    open spec fn view(&self) -> PickStepView {
        match *self {
            PickStep::Try(state, request) => PickStepView::Try(state, request@),
            PickStep::Answer(reply) => PickStepView::Answer(reply@),
        }
    }
}

/// What follows when the upstream was called and the pool was told how that ended.
pub enum FetchStep {
    /// The upstream's reply is handed on, and the chat is over.
    HandOn,
    /// Another key is picked.
    Again(Picking),
    /// The chat is over.
    Answer(Reply),
}

/// What follows when the upstream was called and the pool was told how that ended.
pub enum FetchStepView {
    HandOn,
    Again(Picking),
    Answer(ReplyView),
}

impl View for FetchStep {
    type V = FetchStepView;

    open spec fn view(&self) -> FetchStepView {
        match *self {
            FetchStep::HandOn => FetchStepView::HandOn,
            FetchStep::Again(state) => FetchStepView::Again(state),
            FetchStep::Answer(reply) => FetchStepView::Answer(reply@),
        }
    }
}

/// A chat that was not tried yet.
pub open spec fn first_pick() -> Picking {
    Picking { attempts: 0, failure: ErrType::UpstreamError }
}

/// Starts a chat.
pub fn begin() -> (r: Picking)
    ensures
        r == first_pick(),
{
    Picking { attempts: 0, failure: ErrType::UpstreamError }
}

/// The reply to a chat for which the pool cannot be had.
pub fn pool_unavailable() -> (r: Reply)
    ensures
        r@ == error_reply(500, POOL_UNAVAILABLE@),
{
    err_res(500, POOL_UNAVAILABLE)
}

/// The command that asks the pool for a key.
pub open spec fn pick_json(model: Seq<char>) -> JsonView {
    JsonView::Object(map!["cmd"@ => JsonView::Str("pick"@), "model"@ => JsonView::Str(model)])
}

/// Writes the command that asks the pool for a key.
pub fn pick_command(model: &str) -> (r: serde_json::Value)
    ensures
        json_contents(r) == pick_json(model@),
{
    with(with(object(), "cmd", of_text("pick")), "model", of_text(model))
}

/// The number of the key that the pool picked.
pub open spec fn key_index(answer: JsonView) -> u32 {
    match unsigned_at(answer, "key_idx"@) {
        Some(n) => (n % 0x1_0000_0000) as u32,
        None => 0,
    }
}

/// The web address of one of the upstream's services.
pub open spec fn nvidia_url(env: Env, service: Service) -> Seq<char> {
    setting(env, "NVIDIA_BASE"@, NVIDIA_BASE_DEFAULT@) + "/v1"@ + service.path()
}

/// What follows from the pool's answer, where there was a readable one.
pub open spec fn picked(
    env: Env,
    service: Service,
    body: Seq<u8>,
    state: Picking,
    answer: Option<JsonView>,
) -> PickStepView {
    match answer {
        Some(doc) => if text_at(doc, "error"@) == Some("model_blocked"@) {
            PickStepView::Answer(error_reply(429, MODEL_BLOCKED@))
        } else if text_at(doc, "error"@) == Some("all_keys_busy"@) {
            PickStepView::Answer(error_reply(503, KEYS_BUSY@))
        } else {
            match text_at(doc, "key"@) {
                Some(key) => PickStepView::Try(
                    Trying { attempts: state.attempts, key_idx: key_index(doc) },
                    keyed_post(nvidia_url(env, service), key, body),
                ),
                None => PickStepView::Answer(error_reply(502, UNREACHABLE@)),
            }
        },
        None => PickStepView::Answer(error_reply(502, UNREACHABLE@)),
    }
}

/// Decides what follows from the pool's answer, where there was a readable one.
pub fn pick(
    env: &Env,
    service: Service,
    body: &[u8],
    state: Picking,
    answer: Option<&serde_json::Value>,
) -> (r: PickStep)
    ensures
        r@ == picked(*env, service, body@, state, opt_contents(answer)),
{
    let doc = match answer {
        Some(d) => d,
        None => return PickStep::Answer(err_res(502, UNREACHABLE)),
    };
    if let Some(e) = text_field(doc, "error") {
        if *e == *"model_blocked" {
            return PickStep::Answer(err_res(429, MODEL_BLOCKED));
        }
        if *e == *"all_keys_busy" {
            return PickStep::Answer(err_res(503, KEYS_BUSY));
        }
    }
    let key = match text_field(doc, "key") {
        Some(k) => k,
        None => return PickStep::Answer(err_res(502, UNREACHABLE)),
    };
    let key_idx: u32 = match unsigned_field(doc, "key_idx") {
        Some(n) => (n % 0x1_0000_0000) as u32,
        None => 0,
    };
    let base = env_or(env, "NVIDIA_BASE", NVIDIA_BASE_DEFAULT);
    let url = around(base.as_str(), "/v1", service.location());
    let request = post_with_key(url.as_str(), key, body);
    PickStep::Try(Trying { attempts: state.attempts, key_idx }, request)
}

/// The statuses that settle a chat: success, and refusals that another key would not
/// change.
pub open spec fn settles(status: u16) -> bool {
    status == 200 || status == 201 || status == 202 || (400 <= status < 500 && status != 401
        && status != 403 && status != 429)
}

/// How a try failed.
pub open spec fn failure_of(status: Option<u16>) -> ErrType {
    match status {
        Some(code) => upstream_err(code),
        None => ErrType::NetworkError,
    }
}

/// The command that tells the pool how a try ended.
pub open spec fn report_json(model: Seq<char>, key_idx: u32, ok: bool, outcome: ErrType) -> JsonView {
    JsonView::Object(
        map![
            "cmd"@ => JsonView::Str("report"@),
            "model"@ => JsonView::Str(model),
            "key_idx"@ => JsonView::Int(key_idx as int),
            "ok"@ => JsonView::Bool(ok),
            "err_type"@ => JsonView::Str(outcome.name()),
        ],
    )
}

/// Writes the command that tells the pool how a try ended.
fn report_command(model: &str, key_idx: u32, ok: bool, outcome: ErrType) -> (r: serde_json::Value)
    ensures
        json_contents(r) == report_json(model@, key_idx, ok, outcome),
{
    with(
        with(
            with(
                with(with(object(), "cmd", of_text("report")), "model", of_text(model)),
                "key_idx",
                of_unsigned(key_idx as u64),
            ),
            "ok",
            of_bool(ok),
        ),
        "err_type",
        of_text(outcome.label()),
    )
}

/// What a status that settles a chat is reported as. The pool blocks a model for refusals
/// of the model itself, which are told by two statuses.
pub open spec fn settled_outcome(status: u16) -> ErrType {
    if status == 400 || status == 404 {
        ErrType::ClientError
    } else {
        ErrType::Success
    }
}

/// What the pool is told when the upstream replied with a status, or was not reached.
pub open spec fn report(model: Seq<char>, state: Trying, status: Option<u16>) -> JsonView {
    match status {
        Some(code) => if settles(code) {
            report_json(model, state.key_idx, code < 400, settled_outcome(code))
        } else {
            report_json(model, state.key_idx, false, upstream_err(code))
        },
        None => report_json(model, state.key_idx, false, ErrType::NetworkError),
    }
}

/// The reply to a chat that was tried as often as may be.
pub open spec fn exhausted(failure: ErrType) -> ReplyView {
    if failure == ErrType::RateLimited {
        error_reply(429, RATE_LIMITED@)
    } else {
        error_reply(502, UNREACHABLE@)
    }
}

/// What follows when the upstream replied with a status, or was not reached.
pub open spec fn tried(state: Trying, status: Option<u16>) -> FetchStepView {
    if status is Some && settles(status->0) {
        FetchStepView::HandOn
    } else if state.attempts + 1 < MAX_ATTEMPTS {
        FetchStepView::Again(
            Picking { attempts: (state.attempts + 1) as u32, failure: failure_of(status) },
        )
    } else {
        FetchStepView::Answer(exhausted(failure_of(status)))
    }
}

/// Decides what the pool is told and what follows, when the upstream replied with a
/// status or was not reached.
pub fn settle(model: &str, state: Trying, status: Option<u16>) -> (r: (
    serde_json::Value,
    FetchStep,
))
    ensures
        json_contents(r.0) == report(model@, state, status),
        r.1@ == tried(state, status),
{
    let failure = match status {
        Some(code) => {
            if code == 200 || code == 201 || code == 202 || (400 <= code && code < 500 && code
                != 401 && code != 403 && code != 429) {
                let outcome = if code == 400 || code == 404 {
                    ErrType::ClientError
                } else {
                    ErrType::Success
                };
                return (
                    report_command(model, state.key_idx, code < 400, outcome),
                    FetchStep::HandOn,
                );
            }
            classify_upstream_err(code)
        },
        None => ErrType::NetworkError,
    };
    let told = report_command(model, state.key_idx, false, failure);
    if state.attempts < MAX_ATTEMPTS - 1 {
        return (told, FetchStep::Again(Picking { attempts: state.attempts + 1, failure }));
    }
    let reply = match failure {
        ErrType::RateLimited => err_res(429, RATE_LIMITED),
        _ => err_res(502, UNREACHABLE),
    };
    (told, FetchStep::Answer(reply))
}

// ---------------------------------------------------------------------------
// Whole chats
// ---------------------------------------------------------------------------
/// What happens in one round of a chat: what the pool answers, and with which status
/// the upstream replies where it is called and reached.
pub struct Round {
    pub answer: Option<JsonView>,
    pub status: Option<u16>,
}

/// How a chat ends.
pub enum Ending {
    HandOn,
    Answer(ReplyView),
}

/// What is seen of a chat from outside: the calls of the upstream, what the pool is
/// told, and how the chat ends, where it does.
pub struct Trace {
    pub requests: Seq<RequestView>,
    pub reports: Seq<JsonView>,
    pub ending: Option<Ending>,
}

/// What is seen of a chat, from a state on.
pub open spec fn trace(
    env: Env,
    service: Service,
    model: Seq<char>,
    body: Seq<u8>,
    state: Picking,
    rounds: Seq<Round>,
) -> Trace
    decreases rounds.len(),
{
    if rounds.len() == 0 {
        Trace { requests: Seq::empty(), reports: Seq::empty(), ending: None }
    } else {
        match picked(env, service, body, state, rounds[0].answer) {
            PickStepView::Answer(reply) => Trace {
                requests: Seq::empty(),
                reports: Seq::empty(),
                ending: Some(Ending::Answer(reply)),
            },
            PickStepView::Try(trying, request) => {
                let rest = match tried(trying, rounds[0].status) {
                    FetchStepView::HandOn => Trace {
                        requests: Seq::empty(),
                        reports: Seq::empty(),
                        ending: Some(Ending::HandOn),
                    },
                    FetchStepView::Answer(reply) => Trace {
                        requests: Seq::empty(),
                        reports: Seq::empty(),
                        ending: Some(Ending::Answer(reply)),
                    },
                    FetchStepView::Again(next) => trace(env, service, model, body, next, rounds.skip(1)),
                };
                Trace {
                    requests: seq![request] + rest.requests,
                    reports: seq![report(model, trying, rounds[0].status)] + rest.reports,
                    ending: rest.ending,
                }
            },
        }
    }
}

/// From a state on, a chat makes no more tries than are left to it, tells the pool of
/// each, and ends where as many rounds happen as tries are left.
proof fn lemma_trace_bounded(
    env: Env,
    service: Service,
    model: Seq<char>,
    body: Seq<u8>,
    state: Picking,
    rounds: Seq<Round>,
)
    requires
        state.attempts < MAX_ATTEMPTS,
    ensures
        trace(env, service, model, body, state, rounds).requests.len() <= MAX_ATTEMPTS - state.attempts,
        trace(env, service, model, body, state, rounds).requests.len() <= rounds.len(),
        trace(env, service, model, body, state, rounds).reports.len() == trace(
            env,
            service,
            model,
            body,
            state,
            rounds,
        ).requests.len(),
        rounds.len() >= MAX_ATTEMPTS - state.attempts ==> trace(
            env,
            service,
            model,
            body,
            state,
            rounds,
        ).ending is Some,
    decreases rounds.len(),
{
    if rounds.len() > 0 {
        if let PickStepView::Try(trying, _) = picked(env, service, body, state, rounds[0].answer) {
            if let FetchStepView::Again(next) = tried(trying, rounds[0].status) {
                lemma_trace_bounded(env, service, model, body, next, rounds.skip(1));
            }
        }
    }
}

/// A chat calls the upstream at most six times, tells the pool of each call just once,
/// and comes to an end within six rounds, whatever the pool and the upstream do.
pub proof fn law_chat_ends(env: Env, service: Service, model: Seq<char>, body: Seq<u8>, rounds: Seq<Round>)
    ensures
        trace(env, service, model, body, first_pick(), rounds).requests.len() <= MAX_ATTEMPTS,
        trace(env, service, model, body, first_pick(), rounds).reports.len() == trace(
            env,
            service,
            model,
            body,
            first_pick(),
            rounds,
        ).requests.len(),
        rounds.len() >= MAX_ATTEMPTS ==> trace(
            env,
            service,
            model,
            body,
            first_pick(),
            rounds,
        ).ending is Some,
{
    lemma_trace_bounded(env, service, model, body, first_pick(), rounds);
}

/// From a state on, each call and each report is that of its round.
proof fn lemma_trace_follows_pool(
    env: Env,
    service: Service,
    model: Seq<char>,
    body: Seq<u8>,
    state: Picking,
    rounds: Seq<Round>,
    i: int,
)
    requires
        0 <= i < trace(env, service, model, body, state, rounds).requests.len(),
    ensures
        i < rounds.len(),
        rounds[i].answer is Some,
        text_at(rounds[i].answer->0, "key"@) is Some,
        trace(env, service, model, body, state, rounds).requests[i] == keyed_post(
            nvidia_url(env, service),
            text_at(rounds[i].answer->0, "key"@)->0,
            body,
        ),
        i < trace(env, service, model, body, state, rounds).reports.len(),
        exists|attempts: u32|
            trace(env, service, model, body, state, rounds).reports[i] == #[trigger] report(
                model,
                Trying { attempts, key_idx: key_index(rounds[i].answer->0) },
                rounds[i].status,
            ),
    decreases rounds.len(),
{
    if let PickStepView::Try(trying, _) = picked(env, service, body, state, rounds[0].answer) {
        if i == 0 {
            let attempts = trying.attempts;
            assert(trace(env, service, model, body, state, rounds).reports[0] == report(
                model,
                Trying { attempts, key_idx: key_index(rounds[0].answer->0) },
                rounds[0].status,
            ));
        } else if let FetchStepView::Again(next) = tried(trying, rounds[0].status) {
            lemma_trace_follows_pool(env, service, model, body, next, rounds.skip(1), i - 1);
            let attempts = choose|attempts: u32|
                trace(env, service, model, body, next, rounds.skip(1)).reports[i - 1] == #[trigger] report(
                    model,
                    Trying { attempts, key_idx: key_index(rounds.skip(1)[i - 1].answer->0) },
                    rounds.skip(1)[i - 1].status,
                );
            assert(trace(env, service, model, body, state, rounds).reports[i] == report(
                model,
                Trying { attempts, key_idx: key_index(rounds[i].answer->0) },
                rounds[i].status,
            ));
        }
    }
}

/// Every call of a chat hands the caller's body on unchanged, under the key that the
/// pool picked for it, and the pool is told of it under that key's number, with what
/// became of that call.
pub proof fn law_calls_follow_the_pool(
    env: Env,
    service: Service,
    model: Seq<char>,
    body: Seq<u8>,
    rounds: Seq<Round>,
    i: int,
)
    requires
        0 <= i < trace(env, service, model, body, first_pick(), rounds).requests.len(),
    ensures
        i < rounds.len(),
        rounds[i].answer is Some,
        text_at(rounds[i].answer->0, "key"@) is Some,
        trace(env, service, model, body, first_pick(), rounds).requests[i] == keyed_post(
            nvidia_url(env, service),
            text_at(rounds[i].answer->0, "key"@)->0,
            body,
        ),
        trace(env, service, model, body, first_pick(), rounds).reports[i] == report(
            model,
            Trying { attempts: 0, key_idx: key_index(rounds[i].answer->0) },
            rounds[i].status,
        ),
{
    lemma_trace_follows_pool(env, service, model, body, first_pick(), rounds, i);
}

/// Where the upstream refuses a model itself, its reply is handed on, and the pool is told
/// of a client's error.
pub proof fn law_refused_models_are_reported(model: Seq<char>, state: Trying, status: u16)
    requires
        status == 400 || status == 404,
    ensures
        tried(state, Some(status)) == FetchStepView::HandOn,
        report(model, state, Some(status)) == report_json(
            model,
            state.key_idx,
            false,
            ErrType::ClientError,
        ),
{
}

/// No setting but the place of the upstream has a part in a chat.
pub proof fn law_pool_depends_on_its_place_alone(
    env1: Env,
    env2: Env,
    service: Service,
    body: Seq<u8>,
    state: Picking,
    answer: Option<JsonView>,
)
    requires
        setting(env1, "NVIDIA_BASE"@, NVIDIA_BASE_DEFAULT@) == setting(
            env2,
            "NVIDIA_BASE"@,
            NVIDIA_BASE_DEFAULT@,
        ),
    ensures
        picked(env1, service, body, state, answer) == picked(env2, service, body, state, answer),
{
}

/// A pool's answer that gives a key.
pub open spec fn gives_key(answer: Option<JsonView>) -> bool {
    &&& answer is Some
    &&& text_at(answer->0, "key"@) is Some
    &&& text_at(answer->0, "error"@) != Some("model_blocked"@)
    &&& text_at(answer->0, "error"@) != Some("all_keys_busy"@)
}

/// A call that is to be made again: the upstream was not reached, or replied with a
/// status that does not settle the chat.
pub open spec fn fails(status: Option<u16>) -> bool {
    status is None || !settles(status->0)
}

/// Rounds in each of which a key is given and the call fails.
pub open spec fn all_fail(rounds: Seq<Round>) -> bool {
    forall|i: int|
        0 <= i < rounds.len() ==> gives_key(rounds[i].answer) && fails(
            (#[trigger] rounds[i]).status,
        )
}

/// From a state on, a chat of which each call fails ends by the last of them.
proof fn lemma_all_fail(
    env: Env,
    service: Service,
    model: Seq<char>,
    body: Seq<u8>,
    state: Picking,
    rounds: Seq<Round>,
)
    requires
        state.attempts < MAX_ATTEMPTS,
        rounds.len() == MAX_ATTEMPTS - state.attempts,
        all_fail(rounds),
    ensures
        trace(env, service, model, body, state, rounds).requests.len() == rounds.len(),
        trace(env, service, model, body, state, rounds).ending == Some(
            Ending::Answer(exhausted(failure_of(rounds.last().status))),
        ),
    decreases rounds.len(),
{
    assert(gives_key(rounds[0].answer) && fails(rounds[0].status));
    if let PickStepView::Try(trying, _) = picked(env, service, body, state, rounds[0].answer) {
        if let FetchStepView::Again(next) = tried(trying, rounds[0].status) {
            let rest = rounds.skip(1);
            assert forall|i: int| 0 <= i < rest.len() implies gives_key(rest[i].answer) && fails(
                (#[trigger] rest[i]).status,
            ) by {
                assert(rest[i] == rounds[i + 1]);
            }
            assert(rest.last() == rounds.last());
            lemma_all_fail(env, service, model, body, next, rest);
        }
    }
}

/// A chat that fails with six keys is told that the upstream limits the rate exactly
/// where the last call was refused for that, and else that the upstream cannot be
/// reached.
pub proof fn law_last_failure_decides(
    env: Env,
    service: Service,
    model: Seq<char>,
    body: Seq<u8>,
    rounds: Seq<Round>,
)
    requires
        rounds.len() == MAX_ATTEMPTS,
        all_fail(rounds),
    ensures
        trace(env, service, model, body, first_pick(), rounds).requests.len() == MAX_ATTEMPTS,
        trace(env, service, model, body, first_pick(), rounds).ending == Some(
            Ending::Answer(
                if rounds[5].status == Some(429u16) {
                    error_reply(429, RATE_LIMITED@)
                } else {
                    error_reply(502, UNREACHABLE@)
                },
            ),
        ),
{
    lemma_all_fail(env, service, model, body, first_pick(), rounds);
}

/// The first call that does not fail settles a chat: the upstream's reply to it is
/// handed on, and no further call is made.
pub proof fn law_first_settled_call_is_handed_on(
    env: Env,
    service: Service,
    model: Seq<char>,
    body: Seq<u8>,
    rounds: Seq<Round>,
    k: int,
)
    requires
        0 <= k < MAX_ATTEMPTS,
        k < rounds.len(),
        all_fail(rounds.take(k)),
        gives_key(rounds[k].answer),
        !fails(rounds[k].status),
    ensures
        trace(env, service, model, body, first_pick(), rounds).requests.len() == k + 1,
        trace(env, service, model, body, first_pick(), rounds).ending == Some(Ending::HandOn),
{
    lemma_first_settled(env, service, model, body, first_pick(), rounds, k);
}

/// From a state on, the first call that does not fail settles a chat.
proof fn lemma_first_settled(
    env: Env,
    service: Service,
    model: Seq<char>,
    body: Seq<u8>,
    state: Picking,
    rounds: Seq<Round>,
    k: int,
)
    requires
        0 <= k < MAX_ATTEMPTS - state.attempts,
        k < rounds.len(),
        all_fail(rounds.take(k)),
        gives_key(rounds[k].answer),
        !fails(rounds[k].status),
    ensures
        trace(env, service, model, body, state, rounds).requests.len() == k + 1,
        trace(env, service, model, body, state, rounds).ending == Some(Ending::HandOn),
    decreases k,
{
    if k > 0 {
        assert(rounds.take(k)[0] == rounds[0]);
        if let PickStepView::Try(trying, _) = picked(env, service, body, state, rounds[0].answer) {
            if let FetchStepView::Again(next) = tried(trying, rounds[0].status) {
                let rest = rounds.skip(1);
                assert forall|i: int| 0 <= i < k - 1 implies gives_key(rest.take(k - 1)[i].answer)
                    && fails((#[trigger] rest.take(k - 1)[i]).status) by {
                    assert(rest.take(k - 1)[i] == rounds.take(k)[i + 1]);
                }
                lemma_first_settled(env, service, model, body, next, rest, k - 1);
            }
        }
    }
}

// ---------------------------------------------------------------------------
// What each answer leads to
// ---------------------------------------------------------------------------
/// The members of a report are told apart by their names.
proof fn lemma_report_keys()
    ensures
        "ok"@.len() == 2,
        "cmd"@.len() == 3,
        "model"@.len() == 5,
        "key_idx"@.len() == 7,
        "err_type"@.len() == 8,
{
    reveal_strlit("cmd");
    reveal_strlit("model");
    reveal_strlit("key_idx");
    reveal_strlit("ok");
    reveal_strlit("err_type");
}

/// The errors of the pool are told apart by their names.
proof fn lemma_pool_errors()
    ensures
        "model_blocked"@.len() == 13 && "model_blocked"@[0] == 'm',
        "all_keys_busy"@.len() == 13 && "all_keys_busy"@[0] == 'a',
{
    reveal_strlit("model_blocked");
    reveal_strlit("all_keys_busy");
}

/// A reply is handed on exactly where its status is 200, 201 or 202, or lies from 400 to
/// 499 and is none of 401, 403 and 429. For every other status, and so for all from 500 to
/// 599, a chat with tries left picks another key; after the sixth try it is answered, with
/// 429 where that try was refused for the rate, and with 502 otherwise.
pub proof fn law_statuses_decide(state: Trying, status: u16)
    ensures
        tried(state, Some(status)) is HandOn <==> (status == 200 || status == 201 || status == 202
            || (400 <= status <= 499 && status != 401 && status != 403 && status != 429)),
        (status == 401 || status == 403 || status == 429 || status < 200 || 203 <= status <= 399
            || status >= 500) && state.attempts < 5 ==> (tried(state, Some(status))
            matches FetchStepView::Again(next) && next.attempts == state.attempts + 1),
        (status == 401 || status == 403 || status == 429 || status < 200 || 203 <= status <= 399
            || status >= 500) && state.attempts >= 5 ==> tried(state, Some(status))
            == FetchStepView::Answer(
            if status == 429 {
                error_reply(429, "上游限流，请稍后重试"@)
            } else {
                error_reply(502, "Bad Gateway: upstream unreachable"@)
            },
        ),
{
}

/// A chat whose upstream is not reached picks another key, up to the sixth try, and is then
/// answered with 502; the pool is told of an error of the network each time.
pub proof fn law_missing_replies_are_tried_again(model: Seq<char>, state: Trying)
    ensures
        state.attempts < 5 ==> (tried(state, None) matches FetchStepView::Again(next)
            && next.attempts == state.attempts + 1),
        state.attempts >= 5 ==> tried(state, None) == FetchStepView::Answer(
            error_reply(502, "Bad Gateway: upstream unreachable"@),
        ),
        field(report(model, state, None), "ok"@) == Some(JsonView::Bool(false)),
        field(report(model, state, None), "err_type"@) == Some(JsonView::Str("network_error"@)),
        field(report(model, state, None), "model"@) == Some(JsonView::Str(model)),
        field(report(model, state, None), "key_idx"@) == Some(
            JsonView::Int(state.key_idx as int),
        ),
{
    lemma_report_keys();
}

/// The pool is told of each reply under the model and the key that were tried. It went well
/// where the status is 200, 201 or 202, and only there; the class is that of the status, and
/// a refusal that is handed on and is neither 400 nor 404 is not held against the key.
pub proof fn law_reports_tell_the_status(model: Seq<char>, state: Trying, status: u16)
    ensures
        field(report(model, state, Some(status)), "cmd"@) == Some(JsonView::Str("report"@)),
        field(report(model, state, Some(status)), "model"@) == Some(JsonView::Str(model)),
        field(report(model, state, Some(status)), "key_idx"@) == Some(
            JsonView::Int(state.key_idx as int),
        ),
        field(report(model, state, Some(status)), "ok"@) == Some(
            JsonView::Bool(status == 200 || status == 201 || status == 202),
        ),
        field(report(model, state, Some(status)), "err_type"@) == Some(
            JsonView::Str(
                if status == 200 || status == 201 || status == 202 {
                    "success"@
                } else if status == 429 {
                    "rate_limited"@
                } else if status == 400 || status == 401 || status == 403 || status == 404 {
                    "client_error"@
                } else if 400 <= status <= 499 {
                    "success"@
                } else {
                    "upstream_error"@
                },
            ),
        ),
{
    lemma_report_keys();
}

/// The pool is asked for a key for the model.
pub proof fn law_keys_are_asked_for_a_model(model: Seq<char>)
    ensures
        field(pick_json(model), "cmd"@) == Some(JsonView::Str("pick"@)),
        field(pick_json(model), "model"@) == Some(JsonView::Str(model)),
{
    lemma_report_keys();
}

/// A blocked model is refused with 429, a busy pool with 503, and any other answer without
/// a key, or none at all, with 502.
pub proof fn law_pool_refusals_are_told(
    env: Env,
    service: Service,
    body: Seq<u8>,
    state: Picking,
    doc: JsonView,
)
    ensures
        field(doc, "error"@) == Some(JsonView::Str("model_blocked"@)) ==> picked(
            env,
            service,
            body,
            state,
            Some(doc),
        ) == PickStepView::Answer(
            error_reply(
                429,
                "该模型在上游已被封锁（3+ 密钥无访问权限），10 分钟后自动重试"@,
            ),
        ),
        field(doc, "error"@) == Some(JsonView::Str("all_keys_busy"@)) ==> picked(
            env,
            service,
            body,
            state,
            Some(doc),
        ) == PickStepView::Answer(error_reply(503, "all keys busy"@)),
        !(field(doc, "key"@) matches Some(JsonView::Str(_))) && field(doc, "error"@) != Some(
            JsonView::Str("model_blocked"@),
        ) && field(doc, "error"@) != Some(JsonView::Str("all_keys_busy"@)) ==> picked(
            env,
            service,
            body,
            state,
            Some(doc),
        ) == PickStepView::Answer(error_reply(502, "Bad Gateway: upstream unreachable"@)),
        picked(env, service, body, state, None) == PickStepView::Answer(
            error_reply(502, "Bad Gateway: upstream unreachable"@),
        ),
{
    lemma_pool_errors();
}

/// With the key that the pool gives, the caller's bytes go to the path of the service below
/// Nvidia's place, under that key. The number of the key is kept, in 32 bits, and zero
/// stands for none.
pub proof fn law_given_keys_are_tried(
    env: Env,
    service: Service,
    body: Seq<u8>,
    state: Picking,
    doc: JsonView,
    key: Seq<char>,
)
    requires
        field(doc, "key"@) == Some(JsonView::Str(key)),
        field(doc, "error"@) != Some(JsonView::Str("model_blocked"@)),
        field(doc, "error"@) != Some(JsonView::Str("all_keys_busy"@)),
    ensures
        picked(env, service, body, state, Some(doc)) matches PickStepView::Try(trying, q)
            && trying.attempts == state.attempts && trying.key_idx == (match field(
            doc,
            "key_idx"@,
        ) {
            Some(JsonView::Int(n)) => if 0 <= n <= u64::MAX {
                n % 0x1_0000_0000
            } else {
                0
            },
            _ => 0,
        }) && q.method == Method::Post && q.body == Some(body) && header_value(
            q.headers,
            "Authorization"@,
        ) == Some("Bearer "@ + key) && q.url == (match configured(env.value("NVIDIA_BASE"@)) {
            Some(place) => place,
            None => "https://integrate.api.nvidia.com"@,
        }) + "/v1"@ + service.path(),
        first_pick().attempts == 0,
{
    law_keys_are_sent_as_bearers(nvidia_url(env, service), key, body);
}

/// A chat has six tries, and no more.
pub proof fn law_chats_have_six_tries(
    env: Env,
    service: Service,
    model: Seq<char>,
    body: Seq<u8>,
    rounds: Seq<Round>,
)
    ensures
        trace(env, service, model, body, first_pick(), rounds).requests.len() <= 6,
        rounds.len() == 6 && all_fail(rounds) ==> trace(
            env,
            service,
            model,
            body,
            first_pick(),
            rounds,
        ).requests.len() == 6,
        POOL_UNAVAILABLE@ == "key pool unavailable"@,
{
    law_chat_ends(env, service, model, body, rounds);
    if rounds.len() == 6 && all_fail(rounds) {
        law_last_failure_decides(env, service, model, body, rounds);
    }
}

} // verus!
