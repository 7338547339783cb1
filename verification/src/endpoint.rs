//! The endpoints that hand a caller's request to an upstream.
use crate::body::{UNREAD, explained_body, json_body, opt_bytes, read_explained, read_json};
use crate::catalog::{Provider, named_provider, provider, provider_of};
use crate::config::{Env, ProviderCfgView, host, provider_cfg, upstream_cfg, url_host};
use crate::json::{
    JsonView, field, json_contents, json_parse, takes_members, text_field_or_empty, text_or_empty,
};
use crate::reply::{Reply, ReplyView, err_res, error_reply};
use crate::routing::law_no_name_goes_to_nvidia;
use crate::service::Service;
use crate::text::{begins, opt_text, starts_with};
use crate::upstream::{
    RequestView, UNCONFIGURED, UpstreamRequest, direct_chat, direct_forward, direct_request,
    direct_upload, header_value, law_uploads_keep_their_type, proxy_direct, upload_request,
};
use vstd::prelude::*;

verus! {

pub const CHAT_NEEDS_MODEL: &'static str =
    "缺少 model 字段：请求体必须包含 \"model\": \"<模型 ID>\"，可先 GET /v1/models 查看可用模型";

pub const MODERATION_NEEDS_MODEL: &'static str =
    "缺少 model 字段：文本审核请使用 \"Security-semantic-filtering\"（上游唯一支持文本输入的审核模型）";

/// What is done for a caller.
pub enum Plan {
    /// The caller is answered.
    Answer(Reply),
    /// One request is made, and the reply to it handed on.
    Forward(UpstreamRequest),
    /// The body is for a service of Nvidia, and is tried with keys of the pool.
    Pool(Service),
    /// The body is for a service of Workers AI.
    WorkersAi(Service),
    /// The document is to be spoken by Workers AI.
    Speech(serde_json::Value),
    /// The body is for the private upstream.
    Acu,
}

/// What is done for a caller.
pub enum PlanView {
    Answer(ReplyView),
    Forward(RequestView),
    Pool(Service),
    WorkersAi(Service),
    Speech(JsonView),
    Acu,
}

impl View for Plan {
    type V = PlanView;

    open spec fn view(&self) -> PlanView {
        match *self {
            Plan::Answer(reply) => PlanView::Answer(reply@),
            Plan::Forward(request) => PlanView::Forward(request@),
            Plan::Pool(service) => PlanView::Pool(service),
            Plan::WorkersAi(service) => PlanView::WorkersAi(service),
            Plan::Speech(document) => PlanView::Speech(json_contents(document)),
            Plan::Acu => PlanView::Acu,
        }
    }
}

/// The plan for a request that is made where there is a reply to it otherwise.
pub open spec fn forwarded(request: Result<RequestView, ReplyView>) -> PlanView {
    match request {
        Ok(q) => PlanView::Forward(q),
        Err(reply) => PlanView::Answer(reply),
    }
}

/// Plans to hand a body to a path below the place of an upstream.
fn plan_direct(env: &Env, upstream: Provider, path: &str, body: &[u8]) -> (r: Plan)
    ensures
        r@ == forwarded(direct_request(upstream_cfg(*env, upstream), path@, body@)),
{
    match direct_forward(env, upstream, path, body) {
        Ok(q) => Plan::Forward(q),
        Err(reply) => Plan::Answer(reply),
    }
}

/// A request for a model, with the provider of that model and what is done for it.
pub struct Call {
    pub model: String,
    pub provider: Provider,
    pub plan: Plan,
}

/// What a request for a model is, and what is done for it.
pub struct CallView {
    pub model: Seq<char>,
    pub provider: Provider,
    pub plan: PlanView,
}

impl View for Call {
    type V = CallView;

    open spec fn view(&self) -> CallView {
        CallView { model: self.model@, provider: self.provider, plan: self.plan@ }
    }
}

// ---------------------------------------------------------------------------
// Chats
// ---------------------------------------------------------------------------
/// What is done for a chat. An upstream with a fixed key is called directly; Spark is
/// told by which host.
pub open spec fn chat_plan(
    model_provider: Provider,
    cfg: Option<ProviderCfgView>,
    body: Seq<u8>,
) -> PlanView {
    match model_provider {
        Provider::WorkersAi => PlanView::WorkersAi(Service::Chat),
        Provider::WorkersAiTts => PlanView::WorkersAi(Service::Chat),
        Provider::Acu => PlanView::Acu,
        Provider::Nvidia => PlanView::Pool(Service::Chat),
        _ => match cfg {
            Some(c) => PlanView::Forward(
                direct_chat(
                    c.base,
                    c.key,
                    if model_provider == Provider::Spark {
                        host(c.base)
                    } else {
                        None
                    },
                    body,
                ),
            ),
            None => PlanView::Answer(error_reply(502, UNCONFIGURED@)),
        },
    }
}

/// The chat that a document asks for, with the bytes that hold it, or the reply to a
/// document that names no model.
pub open spec fn chat_call(env: Env, document: JsonView, body: Seq<u8>) -> Result<
    CallView,
    ReplyView,
> {
    let model = text_or_empty(document, "model"@);
    if model.len() == 0 {
        Err(error_reply(400, CHAT_NEEDS_MODEL@))
    } else {
        Ok(
            CallView {
                model,
                provider: provider(model),
                plan: chat_plan(provider(model), upstream_cfg(env, provider(model)), body),
            },
        )
    }
}

/// Plans the chat that a document asks for, given the bytes that hold it.
pub fn plan_chat(env: &Env, document: &serde_json::Value, body: &[u8]) -> (r: Result<Call, Reply>)
    ensures
        match r {
            Ok(call) => chat_call(*env, json_contents(*document), body@) == Ok::<
                CallView,
                ReplyView,
            >(call@),
            Err(e) => chat_call(*env, json_contents(*document), body@) == Err::<
                CallView,
                ReplyView,
            >(e@),
        },
{
    let model = text_field_or_empty(document, "model");
    if model.as_str().is_empty() {
        return Err(err_res(400, CHAT_NEEDS_MODEL));
    }
    let upstream = provider_of(model.as_str());
    let plan = match upstream {
        Provider::WorkersAi | Provider::WorkersAiTts => Plan::WorkersAi(Service::Chat),
        Provider::Acu => Plan::Acu,
        Provider::Nvidia => Plan::Pool(Service::Chat),
        Provider::Gitee | Provider::Siliconflow | Provider::Zhipu | Provider::Spark => {
            match provider_cfg(env, upstream) {
                Some(cfg) => {
                    let extra = match upstream {
                        Provider::Spark => url_host(cfg.base.as_str()),
                        _ => None,
                    };
                    Plan::Forward(proxy_direct(cfg.base.as_str(), cfg.key.as_str(), extra, body))
                },
                None => Plan::Answer(err_res(502, UNCONFIGURED)),
            }
        },
    };
    Ok(Call { model, provider: upstream, plan })
}

/// Plans what is done for a request to the chat endpoint.
pub fn handle_chat(env: &Env, body: Option<&[u8]>) -> (r: Result<Call, Reply>)
    ensures
        match r {
            Ok(call) => body is Some && (explained_body(opt_bytes(body)) matches Ok(document)
                && chat_call(*env, document, body->0@) == Ok::<CallView, ReplyView>(call@)),
            Err(e) => match explained_body(opt_bytes(body)) {
                Ok(document) => body is Some && chat_call(*env, document, body->0@) == Err::<
                    CallView,
                    ReplyView,
                >(e@),
                Err(reply) => reply == e@,
            },
        },
{
    match read_explained(body) {
        Ok(document) => match body {
            Some(b) => plan_chat(env, &document, b),
            None => Err(err_res(400, UNREAD)),
        },
        Err(reply) => Err(reply),
    }
}

// ---------------------------------------------------------------------------
// Speech and transcriptions
// ---------------------------------------------------------------------------
/// The document in the body of a request to an endpoint that does not say what is wrong
/// with a body.
pub open spec fn terse_body(body: Option<Seq<u8>>) -> Result<JsonView, ReplyView> {
    json_body(body, "Bad Request"@, "Bad Request"@)
}

/// What is done for a document that asks for speech, given the bytes that hold it. A model
/// of another provider, or with Nvidia's own prefix, is asked there; any other is one for
/// Workers AI.
pub open spec fn speech_call(env: Env, document: JsonView, body: Seq<u8>) -> CallView {
    let model = text_or_empty(document, "model"@);
    CallView {
        model,
        provider: provider(model),
        plan: match provider(model) {
            Provider::WorkersAi => PlanView::Speech(document),
            Provider::WorkersAiTts => PlanView::Speech(document),
            Provider::Acu => PlanView::Acu,
            Provider::Nvidia => if begins(model, "nvidia/"@) {
                PlanView::Pool(Service::Speech)
            } else {
                PlanView::Speech(document)
            },
            p => forwarded(direct_request(upstream_cfg(env, p), Service::Speech.path(), body)),
        },
    }
}

/// Plans what is done for a document that asks for speech, given the bytes that hold it.
pub fn plan_speech(env: &Env, document: serde_json::Value, body: &[u8]) -> (r: Call)
    ensures
        r@ == speech_call(*env, json_contents(document), body@),
{
    let model = text_field_or_empty(&document, "model");
    let upstream = provider_of(model.as_str());
    let plan = match upstream {
        Provider::WorkersAi | Provider::WorkersAiTts => Plan::Speech(document),
        Provider::Acu => Plan::Acu,
        Provider::Nvidia => if starts_with(model.as_str(), "nvidia/") {
            Plan::Pool(Service::Speech)
        } else {
            Plan::Speech(document)
        },
        Provider::Gitee | Provider::Siliconflow | Provider::Zhipu | Provider::Spark => {
            plan_direct(env, upstream, Service::Speech.location(), body)
        },
    };
    Call { model, provider: upstream, plan }
}

/// Plans what is done for a request to the speech endpoint.
pub fn handle_speech(env: &Env, body: Option<&[u8]>) -> (r: Result<Call, Reply>)
    ensures
        match r {
            Ok(call) => body is Some && (terse_body(opt_bytes(body)) matches Ok(document)
                && call@ == speech_call(*env, document, body->0@)),
            Err(e) => terse_body(opt_bytes(body)) == Err::<JsonView, ReplyView>(e@),
        },
{
    match read_json(body, "Bad Request", "Bad Request") {
        Ok(document) => match body {
            Some(b) => Ok(plan_speech(env, document, b)),
            None => Err(err_res(400, "Bad Request")),
        },
        Err(reply) => Err(reply),
    }
}

/// What is done for a body that is to be transcribed: it is uploaded with the type of
/// content that the caller gave, which says how to read it.
pub open spec fn transcription_plan(
    env: Env,
    content_type: Option<Seq<char>>,
    body: Option<Seq<u8>>,
) -> PlanView {
    match body {
        Some(b) => forwarded(
            upload_request(
                upstream_cfg(env, Provider::Gitee),
                "/audio/transcriptions"@,
                content_type,
                b,
            ),
        ),
        None => PlanView::Answer(error_reply(400, "Bad Request"@)),
    }
}

/// Plans what is done for a request to the transcription endpoint. Its body is handed
/// on unread.
pub fn handle_transcriptions(env: &Env, content_type: Option<&str>, body: Option<&[u8]>) -> (r:
    Plan)
    ensures
        r@ == transcription_plan(*env, opt_text(content_type), opt_bytes(body)),
{
    match body {
        Some(b) => match direct_upload(
            env,
            Provider::Gitee,
            "/audio/transcriptions",
            content_type,
            b,
        ) {
            Ok(q) => Plan::Forward(q),
            Err(reply) => Plan::Answer(reply),
        },
        None => Plan::Answer(err_res(400, "Bad Request")),
    }
}

// ---------------------------------------------------------------------------
// Other services
// ---------------------------------------------------------------------------
/// What is done for a document that asks for a service, given the bytes that hold it: they
/// go to the provider of the model, by the way that it has.
pub open spec fn service_call(
    service: Service,
    env: Env,
    document: JsonView,
    body: Seq<u8>,
) -> CallView {
    let model = text_or_empty(document, "model"@);
    CallView {
        model,
        provider: provider(model),
        plan: match provider(model) {
            Provider::WorkersAi => PlanView::WorkersAi(service),
            Provider::WorkersAiTts => PlanView::WorkersAi(service),
            Provider::Acu => PlanView::Acu,
            Provider::Nvidia => PlanView::Pool(service),
            p => forwarded(direct_request(upstream_cfg(env, p), service.path(), body)),
        },
    }
}

/// Plans what is done for a document that asks for a service, given the bytes that hold
/// it.
pub fn plan_service(service: Service, env: &Env, document: &serde_json::Value, body: &[u8]) -> (r:
    Call)
    ensures
        r@ == service_call(service, *env, json_contents(*document), body@),
{
    let model = text_field_or_empty(document, "model");
    let upstream = provider_of(model.as_str());
    let plan = match upstream {
        Provider::WorkersAi | Provider::WorkersAiTts => Plan::WorkersAi(service),
        Provider::Acu => Plan::Acu,
        Provider::Nvidia => Plan::Pool(service),
        Provider::Gitee | Provider::Siliconflow | Provider::Zhipu | Provider::Spark => {
            plan_direct(env, upstream, service.location(), body)
        },
    };
    Call { model, provider: upstream, plan }
}

/// A request to the endpoint of a service that does not say what is wrong with a body
/// has the given result.
pub open spec fn serves(
    service: Service,
    env: Env,
    body: Option<Seq<u8>>,
    result: Result<CallView, ReplyView>,
) -> bool {
    match terse_body(body) {
        Ok(document) => body is Some && result == Ok::<CallView, ReplyView>(
            service_call(service, env, document, body->0),
        ),
        Err(reply) => result == Err::<CallView, ReplyView>(reply),
    }
}

/// What the outcome of planning says.
pub open spec fn call_view(r: Result<Call, Reply>) -> Result<CallView, ReplyView> {
    match r {
        Ok(call) => Ok(call@),
        Err(reply) => Err(reply@),
    }
}

/// Plans what is done for a request to the endpoint of a service that does not say what
/// is wrong with a body.
fn handle_service(service: Service, env: &Env, body: Option<&[u8]>) -> (r: Result<Call, Reply>)
    ensures
        serves(service, *env, opt_bytes(body), call_view(r)),
{
    match read_json(body, "Bad Request", "Bad Request") {
        Ok(document) => match body {
            Some(b) => Ok(plan_service(service, env, &document, b)),
            None => Err(err_res(400, "Bad Request")),
        },
        Err(reply) => Err(reply),
    }
}

/// Plans what is done for a request to the embedding endpoint.
pub fn handle_embeddings(env: &Env, body: Option<&[u8]>) -> (r: Result<Call, Reply>)
    ensures
        serves(Service::Embeddings, *env, opt_bytes(body), call_view(r)),
{
    handle_service(Service::Embeddings, env, body)
}

/// Plans what is done for a request to the image endpoint.
pub fn handle_images(env: &Env, body: Option<&[u8]>) -> (r: Result<Call, Reply>)
    ensures
        serves(Service::Images, *env, opt_bytes(body), call_view(r)),
{
    handle_service(Service::Images, env, body)
}

/// Plans what is done for a request to the video endpoint.
pub fn handle_videos(env: &Env, body: Option<&[u8]>) -> (r: Result<Call, Reply>)
    ensures
        serves(Service::Videos, *env, opt_bytes(body), call_view(r)),
{
    handle_service(Service::Videos, env, body)
}

/// Plans what is done for a request to the reranking endpoint.
pub fn handle_rerank(env: &Env, body: Option<&[u8]>) -> (r: Result<Call, Reply>)
    ensures
        serves(Service::Rerank, *env, opt_bytes(body), call_view(r)),
{
    handle_service(Service::Rerank, env, body)
}

/// The moderation that a document asks for, given the bytes that hold it, or the reply
/// to a document that names no model.
pub open spec fn moderation_call(env: Env, document: JsonView, body: Seq<u8>) -> Result<
    CallView,
    ReplyView,
> {
    if text_or_empty(document, "model"@).len() == 0 {
        Err(error_reply(400, MODERATION_NEEDS_MODEL@))
    } else {
        Ok(service_call(Service::Moderations, env, document, body))
    }
}

/// Plans the moderation that a document asks for, given the bytes that hold it.
pub fn plan_moderation(env: &Env, document: &serde_json::Value, body: &[u8]) -> (r: Result<
    Call,
    Reply,
>)
    ensures
        call_view(r) == moderation_call(*env, json_contents(*document), body@),
{
    if text_field_or_empty(document, "model").as_str().is_empty() {
        return Err(err_res(400, MODERATION_NEEDS_MODEL));
    }
    Ok(plan_service(Service::Moderations, env, document, body))
}

/// Plans what is done for a request to the moderation endpoint.
pub fn handle_moderations(env: &Env, body: Option<&[u8]>) -> (r: Result<Call, Reply>)
    ensures
        match explained_body(opt_bytes(body)) {
            Ok(document) => body is Some && call_view(r) == moderation_call(
                *env,
                document,
                body->0@,
            ),
            Err(reply) => call_view(r) == Err::<CallView, ReplyView>(reply),
        },
{
    match read_explained(body) {
        Ok(document) => match body {
            Some(b) => plan_moderation(env, &document, b),
            None => Err(err_res(400, UNREAD)),
        },
        Err(reply) => Err(reply),
    }
}

// ---------------------------------------------------------------------------
// Laws
// ---------------------------------------------------------------------------
/// A model whose name begins with a provider's prefix never goes to the pool, that is to
/// Nvidia, whatever it is asked for.
pub proof fn law_prefixed_models_avoid_the_pool(
    service: Service,
    env: Env,
    document: JsonView,
    body: Seq<u8>,
)
    requires
        named_provider(text_or_empty(document, "model"@)) is Some,
    ensures
        !(service_call(service, env, document, body).plan is Pool),
        !(speech_call(env, document, body).plan is Pool),
        chat_call(env, document, body) matches Ok(call) ==> !(call.plan is Pool),
        moderation_call(env, document, body) matches Ok(call) ==> !(call.plan is Pool),
{
}

/// Where a model's provider takes a fixed key and is configured, what is asked of the model
/// goes there and nowhere else: to the path of the service, under that key, with the
/// caller's bytes. Where it is not configured, the one reply for that is the answer.
pub proof fn law_models_go_to_their_own_upstream(
    service: Service,
    env: Env,
    document: JsonView,
    body: Seq<u8>,
)
    requires
        ({
            let p = provider(text_or_empty(document, "model"@));
            p == Provider::Gitee || p == Provider::Siliconflow || p == Provider::Zhipu || p
                == Provider::Spark
        }),
    ensures
        ({
            let cfg = upstream_cfg(env, provider(text_or_empty(document, "model"@)));
            &&& service_call(service, env, document, body).plan == forwarded(
                direct_request(cfg, service.path(), body),
            )
            &&& speech_call(env, document, body).plan == forwarded(
                direct_request(cfg, Service::Speech.path(), body),
            )
            &&& cfg is None ==> service_call(service, env, document, body).plan
                == PlanView::Answer(error_reply(502, UNCONFIGURED@))
        }),
{
}

/// Only models that Nvidia serves go to the pool, and each for the service that it is
/// asked for.
pub proof fn law_pool_is_for_nvidia(service: Service, env: Env, document: JsonView, body: Seq<u8>)
    ensures
        ({
            let nvidia = provider(text_or_empty(document, "model"@)) == Provider::Nvidia;
            &&& service_call(service, env, document, body).plan is Pool <==> nvidia
            &&& service_call(service, env, document, body).plan matches PlanView::Pool(asked)
                ==> asked == service
            &&& speech_call(env, document, body).plan matches PlanView::Pool(asked) ==> nvidia
                && asked == Service::Speech
            &&& chat_call(env, document, body) matches Ok(call) ==> (call.plan
                matches PlanView::Pool(asked) ==> nvidia && asked == Service::Chat)
        }),
{
}

/// A document that is planned for a provider which knows its models by other names can be
/// told such a name.
pub proof fn law_models_can_be_renamed(
    service: Service,
    env: Env,
    document: JsonView,
    body: Seq<u8>,
)
    ensures
        chat_call(env, document, body) is Ok ==> takes_members(document),
        service_call(service, env, document, body).plan is WorkersAi || service_call(
            service,
            env,
            document,
            body,
        ).plan is Acu ==> takes_members(document),
        speech_call(env, document, body).plan is Acu ==> takes_members(document),
{
    law_no_name_goes_to_nvidia();
}

/// A caller's bytes that are handed on reach an upstream unchanged, whatever is asked for.
pub proof fn law_bodies_are_handed_on(
    service: Service,
    env: Env,
    content_type: Option<Seq<char>>,
    document: JsonView,
    body: Seq<u8>,
)
    ensures
        service_call(service, env, document, body).plan matches PlanView::Forward(q)
            ==> q.body == Some(body),
        chat_call(env, document, body) matches Ok(call) ==> (call.plan matches PlanView::Forward(q)
            ==> q.body == Some(body)),
        speech_call(env, document, body).plan matches PlanView::Forward(q) ==> q.body == Some(body),
        transcription_plan(env, content_type, Some(body)) matches PlanView::Forward(q) ==> q.body
            == Some(body),
{
}

/// Where the upstream of a model that takes a fixed key is not configured, a chat with
/// it is answered with the one reply for that, and no request is made.
pub proof fn law_unconfigured_chat_is_refused(env: Env, document: JsonView, body: Seq<u8>)
    requires
        text_or_empty(document, "model"@).len() > 0,
        ({
            let p = provider(text_or_empty(document, "model"@));
            (p == Provider::Gitee || p == Provider::Siliconflow || p == Provider::Zhipu || p
                == Provider::Spark) && upstream_cfg(env, p) is None
        }),
    ensures
        chat_call(env, document, body) is Ok,
        chat_call(env, document, body)->Ok_0.plan == PlanView::Answer(
            error_reply(502, UNCONFIGURED@),
        ),
{
}

/// What is planned for a request depends on the configuration of its model's provider
/// alone: that of no other upstream changes it.
pub proof fn law_upstreams_are_isolated(
    service: Service,
    env1: Env,
    env2: Env,
    document: JsonView,
    body: Seq<u8>,
)
    requires
        ({
            let p = provider(text_or_empty(document, "model"@));
            upstream_cfg(env1, p) == upstream_cfg(env2, p)
        }),
    ensures
        chat_call(env1, document, body) == chat_call(env2, document, body),
        service_call(service, env1, document, body) == service_call(service, env2, document, body),
        speech_call(env1, document, body) == speech_call(env2, document, body),
{
}

/// A chat needs the name of a model; the model's provider decides by which way it goes. An
/// upstream with a fixed key is called at its path for chats, and Spark alone is told by
/// which host.
pub proof fn law_chats_are_planned(env: Env, document: JsonView, body: Seq<u8>, model: Seq<char>)
    ensures
        !(field(document, "model"@) matches Some(JsonView::Str(m)) && m.len() > 0) ==> chat_call(
            env,
            document,
            body,
        ) == Err::<CallView, ReplyView>(
            error_reply(
                400,
                "缺少 model 字段：请求体必须包含 \"model\": \"<模型 ID>\"，可先 GET /v1/models 查看可用模型"@,
            ),
        ),
        field(document, "model"@) == Some(JsonView::Str(model)) && model.len() > 0 ==> (chat_call(
            env,
            document,
            body,
        ) matches Ok(call) && call.model == model && call.provider == provider(model) && call.plan
            == (match provider(model) {
            Provider::Nvidia => PlanView::Pool(Service::Chat),
            Provider::WorkersAi => PlanView::WorkersAi(Service::Chat),
            Provider::WorkersAiTts => PlanView::WorkersAi(Service::Chat),
            Provider::Acu => PlanView::Acu,
            Provider::Spark => match upstream_cfg(env, Provider::Spark) {
                Some(c) => PlanView::Forward(direct_chat(c.base, c.key, host(c.base), body)),
                None => PlanView::Answer(
                    error_reply(502, "该模型的上游通道暂不可用，请稍后重试"@),
                ),
            },
            p => match upstream_cfg(env, p) {
                Some(c) => PlanView::Forward(direct_chat(c.base, c.key, None, body)),
                None => PlanView::Answer(
                    error_reply(502, "该模型的上游通道暂不可用，请稍后重试"@),
                ),
            },
        })),
{
}

/// What is asked of a model goes by the way of its provider, for the service that it is asked
/// for: models of Workers AI to Workers AI, those of the private upstream there, Nvidia's to
/// the pool.
pub proof fn law_services_are_planned(
    service: Service,
    env: Env,
    document: JsonView,
    body: Seq<u8>,
    model: Seq<char>,
)
    requires
        field(document, "model"@) == Some(JsonView::Str(model)),
    ensures
        service_call(service, env, document, body).model == model,
        service_call(service, env, document, body).provider == provider(model),
        provider(model) == Provider::WorkersAi || provider(model) == Provider::WorkersAiTts
            ==> service_call(service, env, document, body).plan == PlanView::WorkersAi(service)
            && speech_call(env, document, body).plan == PlanView::Speech(document),
        provider(model) == Provider::Acu ==> service_call(service, env, document, body).plan
            == PlanView::Acu && speech_call(env, document, body).plan == PlanView::Acu,
        provider(model) == Provider::Nvidia ==> service_call(service, env, document, body).plan
            == PlanView::Pool(service),
        speech_call(env, document, body).model == model,
        provider(model) == Provider::Nvidia && begins(model, "nvidia/"@) ==> speech_call(
            env,
            document,
            body,
        ).plan == PlanView::Pool(Service::Speech),
        provider(model) == Provider::Nvidia && !begins(model, "nvidia/"@) ==> speech_call(
            env,
            document,
            body,
        ).plan == PlanView::Speech(document),
{
}

/// A moderation needs the name of a model, and is then a service like the others. A body that
/// cannot be used is refused with 400 by each endpoint in its own words.
pub proof fn law_moderations_are_planned(env: Env, document: JsonView, body: Seq<u8>)
    ensures
        !(field(document, "model"@) matches Some(JsonView::Str(m)) && m.len() > 0)
            ==> moderation_call(env, document, body) == Err::<CallView, ReplyView>(
            error_reply(
                400,
                "缺少 model 字段：文本审核请使用 \"Security-semantic-filtering\"（上游唯一支持文本输入的审核模型）"@,
            ),
        ),
        (field(document, "model"@) matches Some(JsonView::Str(m)) && m.len() > 0)
            ==> moderation_call(env, document, body) == Ok::<CallView, ReplyView>(
            service_call(Service::Moderations, env, document, body),
        ),
        terse_body(None) == Err::<JsonView, ReplyView>(error_reply(400, "Bad Request"@)),
        json_parse(body) matches Ok(read) ==> terse_body(Some(body)) == Ok::<JsonView, ReplyView>(
            read,
        ),
        json_parse(body) is Err ==> terse_body(Some(body)) == Err::<JsonView, ReplyView>(
            error_reply(400, "Bad Request"@),
        ),
{
}

/// A transcription goes to Gitee's path for it, with the caller's bytes and the type that the
/// caller gave them.
pub proof fn law_transcriptions_are_uploaded(env: Env, content_type: Seq<char>, body: Seq<u8>)
    requires
        content_type.len() > 0,
    ensures
        upstream_cfg(env, Provider::Gitee) matches Some(cfg) ==> (transcription_plan(
            env,
            Some(content_type),
            Some(body),
        ) matches PlanView::Forward(q) && q.url == cfg.base + "/audio/transcriptions"@ && q.body
            == Some(body) && header_value(q.headers, "Content-Type"@) == Some(content_type)
            && header_value(q.headers, "Authorization"@) == Some("Bearer "@ + cfg.key)),
        upstream_cfg(env, Provider::Gitee) is None ==> transcription_plan(
            env,
            Some(content_type),
            Some(body),
        ) == PlanView::Answer(error_reply(502, "该模型的上游通道暂不可用，请稍后重试"@)),
        transcription_plan(env, Some(content_type), None) == PlanView::Answer(
            error_reply(400, "Bad Request"@),
        ),
{
    if let Some(cfg) = upstream_cfg(env, Provider::Gitee) {
        law_uploads_keep_their_type(cfg, "/audio/transcriptions"@, content_type, body);
    }
}

} // verus!
