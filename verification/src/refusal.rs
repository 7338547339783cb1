//! The law of refusals: whatever the gateway refuses, it says so in the one form that
//! every error has, with where a user finds help.
use crate::acu::{AcuChatView, AcuStepView, Slot, acu_chat, acu_end, acu_given_up, acu_turn};
use crate::admission::{AdmissionView, admission};
use crate::body::{explained_body, json_body, tool_body};
use crate::codec::base64_reply;
use crate::config::Env;
use crate::endpoint::{
    PlanView, chat_call, moderation_call, service_call, speech_call, transcription_plan,
};
use crate::json::{JsonView, field, text_at};
use crate::location::{FoundView, after_fallback, place_reply, requested_ip};
use crate::pool::{FetchStepView, PickStepView, Picking, Trying, picked, tried};
use crate::reply::{
    ReplyView, error_json, error_reply, help_json, invalid_key_reply, reports_error,
};
use crate::service::Service;
use crate::subnet::subnet_reply;
use crate::text_stats::stats_reply;
use crate::timestamp::asked_time;
use crate::upstream::UNREACHABLE;
use crate::workers_ai::{AccountView, CheckedView, account, body_request, failed};
use vstd::prelude::*;

verus! {

/// A reply that the gateway makes as an error reports one, with its status as its code.
proof fn lemma_error_reply(status: u16)
    requires
        400 <= status < 600,
    ensures
        forall|message: Seq<char>| reports_error(#[trigger] error_reply(status, message)),
{
    assert forall|message: Seq<char>| reports_error(#[trigger] error_reply(status, message)) by {
        assert(error_reply(status, message).json == error_json(status, message, "api_error"@));
    }
}

/// The replies of the gateway to what it refuses are errors of the one form.
proof fn lemma_all_error_replies()
    ensures
        forall|message: Seq<char>| reports_error(#[trigger] error_reply(400, message)),
        forall|message: Seq<char>| reports_error(#[trigger] error_reply(404, message)),
        forall|message: Seq<char>| reports_error(#[trigger] error_reply(429, message)),
        forall|message: Seq<char>| reports_error(#[trigger] error_reply(500, message)),
        forall|message: Seq<char>| reports_error(#[trigger] error_reply(502, message)),
        forall|message: Seq<char>| reports_error(#[trigger] error_reply(503, message)),
{
    lemma_error_reply(400);
    lemma_error_reply(404);
    lemma_error_reply(429);
    lemma_error_reply(500);
    lemma_error_reply(502);
    lemma_error_reply(503);
}

/// An error that is reported has a message, its status as its code, and where a user
/// finds help.
pub proof fn law_errors_carry_help(reply: ReplyView)
    requires
        reports_error(reply),
    ensures
        field(reply.json, "error"@) matches Some(error) && text_at(error, "message"@) is Some
            && text_at(error, "type"@) is Some && field(error, "code"@) == Some(
            JsonView::Int(reply.status as int),
        ) && field(error, "help"@) == Some(help_json()),
{
    reveal_strlit("message");
    reveal_strlit("type");
    reveal_strlit("code");
    reveal_strlit("help");
    assert("type"@[0] != "code"@[0] && "type"@[0] != "help"@[0] && "code"@[0] != "help"@[0]);
    assert("message"@.len() == 7 && "type"@.len() == 4 && "code"@.len() == 4 && "help"@.len()
        == 4);
    let (message, kind) = choose|message: Seq<char>, kind: Seq<char>|
        reply.json == #[trigger] error_json(reply.status, message, kind);
    assert(reply.json == error_json(reply.status, message, kind));
}

/// A caller who is not let in is told so by an error.
pub proof fn law_refused_callers_get_errors(
    env: Env,
    options: bool,
    path: Seq<char>,
    key: Option<Seq<char>>,
)
    ensures
        admission(env, options, path, key) matches AdmissionView::Refused(reply) ==> reports_error(
            reply,
        ) && reply.status == 401,
{
    let reply = invalid_key_reply();
    assert(reply.json == error_json(
        401,
        crate::reply::INVALID_KEY_MESSAGE@,
        "invalid_api_key"@,
    ));
}

/// A body that cannot be used is refused by an error.
pub proof fn law_refused_bodies_get_errors(
    body: Option<Seq<u8>>,
    unread: Seq<char>,
    invalid: Seq<char>,
)
    ensures
        json_body(body, unread, invalid) matches Err(reply) ==> reports_error(reply),
        tool_body(body) matches Err(reply) ==> reports_error(reply),
        explained_body(body) matches Err(reply) ==> reports_error(reply),
{
    lemma_all_error_replies();
}

/// A request that is handed to no upstream, or reaches none, is refused by an error.
pub proof fn law_refused_requests_get_errors(
    service: Service,
    env: Env,
    content_type: Option<Seq<char>>,
    document: JsonView,
    body: Seq<u8>,
)
    ensures
        chat_call(env, document, body) matches Err(reply) ==> reports_error(reply),
        chat_call(env, document, body) matches Ok(call) ==> (call.plan matches PlanView::Answer(
            reply,
        ) ==> reports_error(reply)),
        speech_call(env, document, body).plan matches PlanView::Answer(reply) ==> reports_error(
            reply,
        ),
        transcription_plan(env, content_type, Some(body)) matches PlanView::Answer(reply)
            ==> reports_error(reply),
        transcription_plan(env, content_type, None) matches PlanView::Answer(reply) && reports_error(reply),
        service_call(service, env, document, body).plan matches PlanView::Answer(reply)
            ==> reports_error(reply),
        moderation_call(env, document, body) matches Err(reply) ==> reports_error(reply),
        reports_error(error_reply(502, UNREACHABLE@)),
{
    lemma_all_error_replies();
}

/// A chat that the pool or its upstream fails ends with an error.
pub proof fn law_failed_pool_chats_get_errors(
    env: Env,
    service: Service,
    body: Seq<u8>,
    picking: Picking,
    answer: Option<JsonView>,
    trying: Trying,
    status: Option<u16>,
)
    ensures
        picked(env, service, body, picking, answer) matches PickStepView::Answer(reply) ==> reports_error(
            reply,
        ),
        tried(trying, status) matches FetchStepView::Answer(reply) ==> reports_error(reply),
{
    lemma_all_error_replies();
}

/// A chat that the private upstream fails ends with an error.
pub proof fn law_failed_acu_chats_get_errors(
    env: Env,
    model: Seq<char>,
    body: Seq<u8>,
    chat: AcuChatView,
    slot: Slot,
    reached: bool,
)
    ensures
        acu_chat(env, model, body) matches Err(reply) ==> reports_error(reply),
        acu_turn(chat, slot) matches AcuStepView::Refuse(_, reply) ==> reports_error(reply),
        acu_end(slot, reached).1 matches Some(reply) ==> reports_error(reply),
        reports_error(acu_given_up(slot).1),
{
    lemma_all_error_replies();
}

/// What Workers AI does not do for a caller is refused by an error.
pub proof fn law_failed_workers_ai_gets_errors(
    service: Service,
    checked: CheckedView,
    given: AccountView,
    model: Seq<char>,
    parsed: Result<JsonView, Seq<char>>,
)
    ensures
        account(service, checked) matches Err(reply) ==> reports_error(reply),
        body_request(service, given, model, parsed) matches Err(reply) ==> reports_error(reply),
        reports_error(error_reply(502, failed(service))),
{
    lemma_all_error_replies();
}

/// An address that is not looked up, or not found, is answered with an error.
pub proof fn law_failed_lookups_get_errors(
    body: Option<Seq<u8>>,
    connecting: Option<Seq<char>>,
    forwarded: Option<Seq<char>>,
    ip: Seq<char>,
    found: FoundView,
    doc: JsonView,
)
    ensures
        requested_ip(body, connecting, forwarded) matches Err(reply) ==> reports_error(reply),
        after_fallback(ip, found).status >= 400 ==> reports_error(after_fallback(ip, found)),
        text_at(doc, "status"@) != Some("success"@) ==> forall|status: u16|
            reports_error(#[trigger] place_reply(ip, status, doc)),
{
    lemma_all_error_replies();
}

/// A document that a tool cannot work with is refused by an error.
pub proof fn law_failed_tools_get_errors(document: JsonView)
    ensures
        base64_reply(document).status != 200 ==> reports_error(base64_reply(document)),
        subnet_reply(document).status != 200 ==> reports_error(subnet_reply(document)),
        stats_reply(document).status != 200 ==> reports_error(stats_reply(document)),
        asked_time(document) matches Err(reply) ==> reports_error(reply),
{
    lemma_all_error_replies();
}

} // verus!
