//! Chats with the private upstream, which takes a limited number at a time: a slot is
//! asked for, the chat is sent, and the slot is given back.
use crate::body::{not_json, not_json_reply, parsed_view};
use crate::catalog::Provider;
use crate::command::{command, command_json};
use crate::config::{Env, ProviderCfg, ProviderCfgView, provider_cfg, upstream_cfg};
use crate::json::{
    JsonView, can_take_members, field, json_bytes, json_contents, json_parse, of_text, opt_contents,
    parse, takes_members, text_at, to_bytes, true_at, true_field, unsigned_at, unsigned_field, with, with_member,
};
use crate::reply::{Reply, ReplyView, err_res, error_reply};
use crate::text::{after, begins, law_prefix_and_rest, strip_prefix};
use crate::upstream::{
    Method, RequestView, UpstreamRequest, header_value, keyed_post, law_keys_are_sent_as_bearers,
    post_with_key,
};
use vstd::prelude::*;

verus! {

/// The longest time, in milliseconds, that a chat waits for its turn.
pub const MAX_WAIT: u64 = 10000;

pub const ACU_UNCONFIGURED: &'static str = "acu 通道暂不可用，请稍后重试";

pub const ACU_UNREACHABLE: &'static str = "acu 上游不可达，请稍后重试";

/// A chat with the private upstream, with what its body was parsed to.
pub struct AcuChat {
    pub cfg: ProviderCfg,
    pub model: String,
    pub parsed: Result<serde_json::Value, String>,
}

/// What a chat with the private upstream is.
pub struct AcuChatView {
    pub cfg: ProviderCfgView,
    pub model: Seq<char>,
    pub parsed: Result<JsonView, Seq<char>>,
}

impl View for AcuChat {
    type V = AcuChatView;

    open spec fn view(&self) -> AcuChatView {
        AcuChatView { cfg: self.cfg@, model: self.model@, parsed: parsed_view(self.parsed) }
    }
}

/// A body that can be told which model is asked for. One that is no JSON at all counts
/// here: it is refused before it is told.
pub open spec fn can_name_model(parsed: Result<JsonView, Seq<char>>) -> bool {
    match parsed {
        Ok(document) => takes_members(document),
        Err(_) => true,
    }
}

/// Tells whether a body can be told which model is asked for.
pub fn names_model(parsed: &Result<serde_json::Value, String>) -> (r: bool)
    ensures
        r == can_name_model(parsed_view(*parsed)),
{
    match parsed {
        Ok(v) => can_take_members(v),
        Err(_) => true,
    }
}

/// The chat that a body asks for, or the reply to it where the private upstream is not
/// configured.
pub open spec fn acu_chat(env: Env, model: Seq<char>, body: Seq<u8>) -> Result<
    AcuChatView,
    ReplyView,
> {
    match upstream_cfg(env, Provider::Acu) {
        Some(cfg) => Ok(AcuChatView { cfg, model, parsed: json_parse(body) }),
        None => Err(error_reply(502, ACU_UNCONFIGURED@)),
    }
}

/// Starts a chat with the private upstream.
pub fn proxy_acu_chat(env: &Env, model: &str, body: &[u8]) -> (r: Result<AcuChat, Reply>)
    ensures
        match r {
            Ok(chat) => acu_chat(*env, model@, body@) == Ok::<AcuChatView, ReplyView>(chat@),
            Err(e) => acu_chat(*env, model@, body@) == Err::<AcuChatView, ReplyView>(e@),
        },
{
    match provider_cfg(env, Provider::Acu) {
        Some(cfg) => {
            let parsed = parse(body);
            Ok(AcuChat { cfg, model: model.to_string(), parsed })
        },
        None => Err(err_res(502, ACU_UNCONFIGURED)),
    }
}

/// Writes the command that asks the limiter for a slot.
pub fn acquire_command() -> (r: serde_json::Value)
    ensures
        json_contents(r) == command_json("acquire"@),
{
    command("acquire")
}

/// What the limiter's answer means for a chat.
#[derive(Clone, Copy, Debug, PartialEq, Eq, Structural)]
pub enum Slot {
    /// The chat holds a slot, and has to give it back.
    Held,
    /// The chat holds no slot, and goes on after so many milliseconds.
    Wait(u64),
    /// The chat holds no slot, and goes on at once.
    Free,
}

/// What the limiter's answer, where there was a readable one, means for a chat. A chat
/// is never refused for want of a slot.
pub open spec fn slot_of(answer: Option<JsonView>) -> Slot {
    match answer {
        Some(doc) => if true_at(doc, "granted"@) {
            Slot::Held
        } else {
            match unsigned_at(doc, "wait_ms"@) {
                Some(n) => Slot::Wait(
                    if n < MAX_WAIT {
                        n
                    } else {
                        MAX_WAIT
                    },
                ),
                None => Slot::Free,
            }
        },
        None => Slot::Free,
    }
}

/// Reads what the limiter's answer, where there was a readable one, means for a chat.
pub fn acquired(answer: Option<&serde_json::Value>) -> (r: Slot)
    ensures
        r == slot_of(opt_contents(answer)),
{
    match answer {
        Some(doc) => if true_field(doc, "granted") {
            Slot::Held
        } else {
            match unsigned_field(doc, "wait_ms") {
                Some(n) => Slot::Wait(
                    if n < MAX_WAIT {
                        n
                    } else {
                        MAX_WAIT
                    },
                ),
                None => Slot::Free,
            }
        },
        None => Slot::Free,
    }
}

/// The command that gives a slot back, where one is held.
pub open spec fn release(slot: Slot) -> Option<JsonView> {
    if slot is Held {
        Some(command_json("release"@))
    } else {
        None
    }
}

/// Writes the command that gives a slot back, where one is held.
pub fn release_acu(slot: Slot) -> (r: Option<serde_json::Value>)
    ensures
        match r {
            Some(v) => release(slot) == Some(json_contents(v)),
            None => release(slot) is None,
        },
{
    match slot {
        Slot::Held => Some(command("release")),
        _ => None,
    }
}

/// The name by which the private upstream knows a model.
pub open spec fn acu_model(model: Seq<char>) -> Seq<char> {
    match after(model, "acu/"@) {
        Some(bare) => bare,
        None => model,
    }
}

/// What follows when a chat has got its turn: it is sent, or it is refused and what it
/// holds is given back.
pub enum AcuStep {
    Send(UpstreamRequest),
    Refuse(Option<serde_json::Value>, Reply),
}

/// What follows when a chat has got its turn.
pub enum AcuStepView {
    Send(RequestView),
    Refuse(Option<JsonView>, ReplyView),
}

/// What a command says, where there is one.
pub open spec fn opt_command(document: Option<serde_json::Value>) -> Option<JsonView> {
    match document {
        Some(v) => Some(json_contents(v)),
        None => None,
    }
}

impl View for AcuStep {
    type V = AcuStepView;

    open spec fn view(&self) -> AcuStepView {
        match *self {
            AcuStep::Send(request) => AcuStepView::Send(request@),
            AcuStep::Refuse(told, reply) => AcuStepView::Refuse(opt_command(told), reply@),
        }
    }
}

/// What follows when a chat has got its turn: the body is sent with the model's own
/// name in it.
pub open spec fn acu_turn(chat: AcuChatView, slot: Slot) -> AcuStepView {
    match chat.parsed {
        Ok(document) => AcuStepView::Send(
            keyed_post(
                chat.cfg.base,
                chat.cfg.key,
                json_bytes(
                    with_member(document, "model"@, JsonView::Str(acu_model(chat.model))),
                ),
            ),
        ),
        Err(reason) => AcuStepView::Refuse(release(slot), error_reply(400, not_json(reason))),
    }
}

/// Decides what follows when a chat has got its turn.
pub fn acu_send(chat: AcuChat, slot: Slot) -> (r: AcuStep)
    requires
        can_name_model(chat@.parsed),
    ensures
        r@ == acu_turn(chat@, slot),
{
    match chat.parsed {
        Ok(document) => {
            let bare = match strip_prefix(chat.model.as_str(), "acu/") {
                Some(b) => b,
                None => chat.model.as_str(),
            };
            let body = with(document, "model", of_text(bare));
            AcuStep::Send(
                post_with_key(
                    chat.cfg.base.as_str(),
                    chat.cfg.key.as_str(),
                    to_bytes(&body).as_slice(),
                ),
            )
        },
        Err(e) => AcuStep::Refuse(release_acu(slot), not_json_reply(e.as_str())),
    }
}

/// How a chat that was sent ends: what it holds is given back, and it is answered, or
/// the upstream's reply is handed on where there is none here.
pub open spec fn acu_end(slot: Slot, reached: bool) -> (Option<JsonView>, Option<ReplyView>) {
    (
        release(slot),
        if reached {
            None
        } else {
            Some(error_reply(502, ACU_UNREACHABLE@))
        },
    )
}

/// Decides how a chat that was sent ends, when the upstream replied or was not reached.
pub fn acu_done(slot: Slot, reached: bool) -> (r: (Option<serde_json::Value>, Option<Reply>))
    ensures
        opt_command(r.0) == acu_end(slot, reached).0,
        match r.1 {
            Some(reply) => acu_end(slot, reached).1 == Some(reply@),
            None => acu_end(slot, reached).1 is None,
        },
{
    (
        release_acu(slot),
        if reached {
            None
        } else {
            Some(err_res(502, ACU_UNREACHABLE))
        },
    )
}

/// How a chat ends for which no request can be made: what it holds is given back, and it is
/// answered.
pub open spec fn acu_given_up(slot: Slot) -> (Option<JsonView>, ReplyView) {
    (release(slot), error_reply(502, ACU_UNREACHABLE@))
}

/// Decides how a chat ends for which no request can be made.
pub fn acu_unsent(slot: Slot) -> (r: (Option<serde_json::Value>, Reply))
    ensures
        opt_command(r.0) == release(slot),
        r.1@ == error_reply(502, ACU_UNREACHABLE@),
{
    (release_acu(slot), err_res(502, ACU_UNREACHABLE))
}

/// What becomes of a chat that is to be sent.
#[derive(Clone, Copy, Debug, PartialEq, Eq, Structural)]
pub enum Sending {
    /// The upstream replies.
    Replied,
    /// The upstream is not reached.
    Unreached,
    /// No request can be made.
    Unmade,
}

/// What the limiter is told by the end of a chat that got an answer from it, whatever
/// becomes of the chat when it is to be sent.
pub open spec fn acu_told(
    chat: AcuChatView,
    answer: Option<JsonView>,
    sending: Sending,
) -> Option<JsonView> {
    match acu_turn(chat, slot_of(answer)) {
        AcuStepView::Send(_) => match sending {
            Sending::Replied => acu_end(slot_of(answer), true).0,
            Sending::Unreached => acu_end(slot_of(answer), false).0,
            Sending::Unmade => acu_given_up(slot_of(answer)).0,
        },
        AcuStepView::Refuse(told, _) => told,
    }
}

/// Whether a chat is refused, is answered by the upstream, does not reach it or cannot be
/// sent at all, the slot that it was granted is given back by its end, and no slot is given
/// back that was not granted.
pub proof fn law_granted_slot_is_given_back(
    chat: AcuChatView,
    answer: Option<JsonView>,
    sending: Sending,
)
    ensures
        acu_told(chat, answer, sending) == (if answer is Some && true_at(answer->0, "granted"@) {
            Some(command_json("release"@))
        } else {
            None
        }),
{
}

/// Where the private upstream is not configured, a chat with it is answered with the one
/// reply for that, whatever it says.
pub proof fn law_unconfigured_acu_is_refused(env: Env, model: Seq<char>, body: Seq<u8>)
    requires
        upstream_cfg(env, Provider::Acu) is None,
    ensures
        acu_chat(env, model, body) == Err::<AcuChatView, ReplyView>(
            error_reply(502, ACU_UNCONFIGURED@),
        ),
{
}

/// A chat waits for its turn ten seconds at most, and not at all where it holds a slot.
pub proof fn law_wait_is_bounded(answer: Option<JsonView>)
    ensures
        match slot_of(answer) {
            Slot::Wait(ms) => ms <= 10000 && !true_at(answer->0, "granted"@),
            _ => true,
        },
{
}

/// What is sent differs from the caller's document in the model's name alone.
pub proof fn law_acu_keeps_the_rest(document: JsonView, model: Seq<char>, key: Seq<char>)
    requires
        document is Object,
        key != "model"@,
    ensures
        field(
            with_member(document, "model"@, JsonView::Str(acu_model(model))),
            key,
        ) == field(document, key),
        text_at(
            with_member(document, "model"@, JsonView::Str(acu_model(model))),
            "model"@,
        ) == Some(acu_model(model)),
{
}

// ---------------------------------------------------------------------------
// What each answer leads to
// ---------------------------------------------------------------------------
/// A slot is held exactly where the limiter says that it is granted; else a chat waits as
/// long as the limiter says, ten seconds at most, and not at all where it says nothing.
pub proof fn law_limiter_answers(doc: JsonView)
    ensures
        slot_of(Some(doc)) == Slot::Held <==> field(doc, "granted"@) == Some(JsonView::Bool(true)),
        field(doc, "granted"@) != Some(JsonView::Bool(true)) ==> slot_of(Some(doc)) == (match field(
            doc,
            "wait_ms"@,
        ) {
            Some(JsonView::Int(n)) => if 0 <= n <= 10000 {
                Slot::Wait(n as u64)
            } else if 10000 < n <= u64::MAX {
                Slot::Wait(10000)
            } else {
                Slot::Free
            },
            _ => Slot::Free,
        }),
        slot_of(None) == Slot::Free,
        release(Slot::Held) == Some(command_json("release"@)),
        release(Slot::Free) is None,
        forall|ms: u64| #[trigger] release(Slot::Wait(ms)) is None,
{
}

/// The private upstream knows a model by its name without the prefix.
pub proof fn law_acu_names(name: Seq<char>)
    ensures
        acu_model("acu/"@ + name) == name,
        !begins(name, "acu/"@) ==> acu_model(name) == name,
{
    law_prefix_and_rest(name, "acu/"@, name);
}

/// A chat is sent to the place of the private upstream itself, under its key, with the
/// caller's document under the model's own name; a body that is no JSON is refused with 400
/// and the reason.
pub proof fn law_acu_requests(chat: AcuChatView, slot: Slot, document: JsonView, reason: Seq<char>)
    ensures
        chat.parsed == Ok::<JsonView, Seq<char>>(document) ==> (acu_turn(chat, slot)
            matches AcuStepView::Send(q) && q.url == chat.cfg.base && q.method == Method::Post
            && q.body == Some(
            json_bytes(with_member(document, "model"@, JsonView::Str(acu_model(chat.model)))),
        ) && header_value(q.headers, "Authorization"@) == Some("Bearer "@ + chat.cfg.key)),
        chat.parsed == Err::<JsonView, Seq<char>>(reason) ==> acu_turn(chat, slot)
            == AcuStepView::Refuse(
            release(slot),
            error_reply(400, "请求体不是合法 JSON："@ + reason),
        ),
        acu_end(slot, true).1 is None,
        acu_end(slot, false).1 == Some(error_reply(502, "acu 上游不可达，请稍后重试"@)),
        acu_given_up(slot).1 == error_reply(502, "acu 上游不可达，请稍后重试"@),
{
    law_keys_are_sent_as_bearers(
        chat.cfg.base,
        chat.cfg.key,
        json_bytes(with_member(document, "model"@, JsonView::Str(acu_model(chat.model)))),
    );
}

/// A chat is made of the private upstream's configuration, the model and the caller's body;
/// without a configuration there is none.
pub proof fn law_acu_chats(env: Env, model: Seq<char>, body: Seq<u8>)
    ensures
        upstream_cfg(env, Provider::Acu) matches Some(cfg) ==> (acu_chat(env, model, body)
            matches Ok(chat) && chat.cfg == cfg && chat.model == model && chat.parsed
            == json_parse(body)),
        upstream_cfg(env, Provider::Acu) is None ==> acu_chat(env, model, body) == Err::<
            AcuChatView,
            ReplyView,
        >(error_reply(502, "acu 通道暂不可用，请稍后重试"@)),
{
}

} // verus!
