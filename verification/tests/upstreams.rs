use aqua_gateway::acu::{
    AcuStep, Slot, acquire_command, acquired, acu_done, acu_send, acu_unsent, names_model,
    proxy_acu_chat, release_acu,
};
use aqua_gateway::catalog::Provider;
use aqua_gateway::command::stub_json;
use aqua_gateway::config::Env;
use aqua_gateway::endpoint::{
    Call, Plan, handle_chat, handle_embeddings, handle_images, handle_moderations, handle_rerank,
    handle_speech, handle_transcriptions, handle_videos, plan_chat, plan_moderation, plan_speech,
};
use aqua_gateway::outcome::{ErrType, classify_chat, classify_upstream_err};
use aqua_gateway::pool::{
    FetchStep, MAX_ATTEMPTS, PickStep, begin, pick, pick_command, pool_unavailable, settle,
};
use aqua_gateway::reply::Reply;
use aqua_gateway::service::Service;
use aqua_gateway::upstream::{
    Method, UNCONFIGURED, UpstreamRequest, build_upstream_req, direct_forward, forward_failed,
    proxy_direct,
};
use aqua_gateway::workers_ai::{
    Account, CHAT_EXHAUSTED, Checked, SPEECH_AMOUNT, SPEECH_EXHAUSTED, SPEECH_FAILED, UNITS,
    WAI_UNAVAILABLE, budget_unavailable, check_budget, estimate_wai_neurons, not_reached,
    prepare_body, proxy_workers_ai_chat, speech_request, wai_upstream_model,
};
use serde_json::Value;

fn upstream_env(list: &[(&str, &str)]) -> Env {
    Env { vars: list.iter().map(|(k, v)| (k.to_string(), v.to_string())).collect() }
}

fn upstream_doc(text: &str) -> Value {
    serde_json::from_str(text).unwrap()
}

fn told(reply: &Reply) -> (u16, String) {
    assert_eq!(reply.json["error"]["code"], Value::from(reply.status));
    assert_eq!(reply.json["error"]["help"]["site"], Value::from("https://acu.ltzy.top"));
    (reply.status, reply.json["error"]["message"].as_str().unwrap().to_string())
}

fn header<'a>(request: &'a UpstreamRequest, name: &str) -> Option<&'a str> {
    request.headers.iter().rev().find(|h| h.0 == name).map(|h| h.1.as_str())
}

fn forwarded(call: Call) -> UpstreamRequest {
    match call.plan {
        Plan::Forward(request) => request,
        _ => panic!("no request"),
    }
}

fn answered(call: Call) -> (u16, String) {
    match call.plan {
        Plan::Answer(reply) => told(&reply),
        _ => panic!("no answer"),
    }
}

// ---------------------------------------------------------------------------
// Requests
// ---------------------------------------------------------------------------
#[test]
fn requests_are_built() {
    let extra = vec![("Host".to_string(), "h".to_string())];
    let q = build_upstream_req("http://u/", Some("Bearer k"), &extra, b"abc", Method::Post);
    assert_eq!(q.url, "http://u/");
    assert_eq!(q.method, Method::Post);
    assert_eq!(q.headers.len(), 3);
    assert_eq!(header(&q, "Content-Type"), Some("application/json"));
    assert_eq!(header(&q, "Authorization"), Some("Bearer k"));
    assert_eq!(header(&q, "Host"), Some("h"));
    assert_eq!(q.body, Some(b"abc".to_vec()));
    let q = build_upstream_req("http://u/", None, &[], b"abc", Method::Get);
    assert_eq!(q.headers.len(), 1);
    assert_eq!(q.body, None);
}

#[test]
fn fixed_keys_are_sent_directly() {
    let q = proxy_direct("https://b/v1", "k", Some("b"), b"{}");
    assert_eq!(q.url, "https://b/v1/chat/completions");
    assert_eq!(header(&q, "Authorization"), Some("Bearer k"));
    assert_eq!(header(&q, "Host"), Some("b"));
    let env = upstream_env(&[("ZHIPU_KEY", "z"), ("ZHIPU_BASE", "https://z")]);
    let q = direct_forward(&env, Provider::Zhipu, "/images/generations", b"x").ok().unwrap();
    assert_eq!(q.url, "https://z/images/generations");
    assert_eq!(header(&q, "Authorization"), Some("Bearer z"));
    assert_eq!(q.body, Some(b"x".to_vec()));
    let e = direct_forward(&env, Provider::Gitee, "/rerank", b"x").err().unwrap();
    assert_eq!(told(&e), (502, UNCONFIGURED.to_string()));
}

#[test]
fn commands_are_sent_as_json() {
    let q = stub_json(&acquire_command());
    assert_eq!(q.url, "http://internal/");
    assert_eq!(q.method, Method::Post);
    assert!(q.headers.is_empty());
    assert_eq!(q.body, Some(br#"{"cmd":"acquire"}"#.to_vec()));
    let q = stub_json(&pick_command("m"));
    assert_eq!(q.body, Some(br#"{"cmd":"pick","model":"m"}"#.to_vec()));
}

// ---------------------------------------------------------------------------
// The pool
// ---------------------------------------------------------------------------
#[test]
fn outcomes_are_told_apart() {
    assert_eq!(classify_upstream_err(429), ErrType::RateLimited);
    for code in [400, 401, 403, 404] {
        assert_eq!(classify_upstream_err(code), ErrType::ClientError);
    }
    assert_eq!(classify_upstream_err(500), ErrType::UpstreamError);
    assert_eq!(classify_upstream_err(302), ErrType::UpstreamError);
    assert_eq!(classify_chat(200), ErrType::Success);
    assert_eq!(classify_chat(399), ErrType::Success);
    assert_eq!(classify_chat(429), ErrType::RateLimited);
    assert_eq!(classify_chat(401), ErrType::ClientError);
    assert_eq!(classify_chat(503), ErrType::UpstreamError);
    assert_eq!(ErrType::NetworkError.label(), "network_error");
}

// Plays a chat in which the upstream replies with the given statuses, and gives the
// reports and the reply, or none where the upstream's reply is handed on.
fn play(statuses: &[Option<u16>]) -> (Vec<Value>, Option<Reply>) {
    let env = upstream_env(&[("NVIDIA_BASE", "https://n")]);
    let body = br#"{"model":"m"}"#;
    let mut reports = Vec::new();
    let mut state = begin();
    let mut round = 0;
    loop {
        let key = upstream_doc(&format!(r#"{{"key": "k{}", "key_idx": {}}}"#, round, round));
        let trying = match pick(&env, Service::Chat, body, state, Some(&key)) {
            PickStep::Answer(reply) => return (reports, Some(reply)),
            PickStep::Try(trying, request) => {
                assert_eq!(request.url, "https://n/v1/chat/completions");
                assert_eq!(
                    header(&request, "Authorization"),
                    Some(format!("Bearer k{}", round).as_str())
                );
                assert_eq!(request.body, Some(body.to_vec()));
                trying
            }
        };
        let (report, step) = settle("m", trying, statuses[round]);
        reports.push(report);
        round += 1;
        match step {
            FetchStep::HandOn => return (reports, None),
            FetchStep::Answer(reply) => return (reports, Some(reply)),
            FetchStep::Again(next) => state = next,
        }
    }
}

#[test]
fn a_settled_call_is_handed_on() {
    for code in [200, 201, 202, 400, 404, 422] {
        let (reports, reply) = play(&[Some(code)]);
        assert!(reply.is_none());
        assert_eq!(reports.len(), 1);
        assert_eq!(reports[0]["ok"], Value::from(code < 400));
        let refused = code == 400 || code == 404;
        let kind = if refused { "client_error" } else { "success" };
        assert_eq!(reports[0]["err_type"], Value::from(kind));
    }
}

#[test]
fn failed_calls_are_made_again() {
    let (reports, reply) = play(&[Some(429), None, Some(401), Some(500), Some(204), Some(200)]);
    assert!(reply.is_none());
    let kinds: Vec<&str> = reports.iter().map(|r| r["err_type"].as_str().unwrap()).collect();
    assert_eq!(
        kinds,
        ["rate_limited", "network_error", "client_error", "upstream_error", "upstream_error", "success"]
    );
    assert_eq!(
        reports[2],
        upstream_doc(
            r#"{"cmd": "report", "model": "m", "key_idx": 2, "ok": false, "err_type": "client_error"}"#
        )
    );
}

#[test]
fn the_last_failure_decides() {
    let (reports, reply) = play(&[Some(500); 6]);
    assert_eq!(reports.len(), MAX_ATTEMPTS as usize);
    assert_eq!(
        told(&reply.unwrap()),
        (502, "Bad Gateway: upstream unreachable".to_string())
    );
    let (_, reply) = play(&[None, None, None, None, None, Some(429)]);
    assert_eq!(told(&reply.unwrap()), (429, "上游限流，请稍后重试".to_string()));
    let (_, reply) = play(&[Some(429), Some(429), Some(429), Some(429), Some(429), Some(403)]);
    assert_eq!(told(&reply.unwrap()).0, 502);
}

#[test]
fn the_pool_can_refuse() {
    let env = upstream_env(&[]);
    let refusal = |text: &str| match pick(&env, Service::Chat, b"", begin(), Some(&upstream_doc(text))) {
        PickStep::Answer(reply) => told(&reply).0,
        PickStep::Try(_, _) => panic!("a key"),
    };
    assert_eq!(refusal(r#"{"error": "model_blocked", "key": "k"}"#), 429);
    assert_eq!(refusal(r#"{"error": "all_keys_busy"}"#), 503);
    assert_eq!(refusal(r#"{"error": "other"}"#), 502);
    assert_eq!(refusal("{}"), 502);
    match pick(&env, Service::Chat, b"", begin(), None) {
        PickStep::Answer(reply) => assert_eq!(told(&reply).0, 502),
        PickStep::Try(_, _) => panic!("a key"),
    }
    match pick(&env, Service::Chat, b"", begin(), Some(&upstream_doc(r#"{"key": "k", "key_idx": 4294967299}"#))) {
        PickStep::Try(trying, request) => {
            assert_eq!(trying.key_idx, 3);
            assert_eq!(request.url, "https://integrate.api.nvidia.com/v1/chat/completions");
        }
        PickStep::Answer(_) => panic!("no key"),
    }
    let key = upstream_doc(r#"{"key": "k"}"#);
    match pick(&env, Service::Rerank, b"", begin(), Some(&key)) {
        PickStep::Try(_, request) => {
            assert_eq!(request.url, "https://integrate.api.nvidia.com/v1/rerank");
        }
        PickStep::Answer(_) => panic!("no key"),
    }
    assert_eq!(told(&pool_unavailable()), (500, "key pool unavailable".to_string()));
}

// ---------------------------------------------------------------------------
// The private upstream
// ---------------------------------------------------------------------------
#[test]
fn slots_are_read_out_of_answers() {
    let slot = |text: &str| acquired(Some(&upstream_doc(text)));
    assert_eq!(slot(r#"{"granted": true, "wait_ms": 5}"#), Slot::Held);
    assert_eq!(slot(r#"{"granted": false, "wait_ms": 500}"#), Slot::Wait(500));
    assert_eq!(slot(r#"{"wait_ms": 60000}"#), Slot::Wait(10000));
    assert_eq!(slot("{}"), Slot::Free);
    assert_eq!(acquired(None), Slot::Free);
}

#[test]
fn private_chats_are_sent_under_their_own_name() {
    let env = upstream_env(&[("ACU_KEY", "k"), ("ACU_BASE", "https://p/chat")]);
    let body = br#"{"model": "acu/deepseek-v4-flash", "stream": true}"#;
    let chat = proxy_acu_chat(&env, "acu/deepseek-v4-flash", body).ok().unwrap();
    assert!(names_model(&chat.parsed));
    match acu_send(chat, Slot::Held) {
        AcuStep::Send(q) => {
            assert_eq!(q.url, "https://p/chat");
            assert_eq!(header(&q, "Authorization"), Some("Bearer k"));
            assert_eq!(
                q.body,
                Some(br#"{"model":"deepseek-v4-flash","stream":true}"#.to_vec())
            );
        }
        AcuStep::Refuse(_, _) => panic!("refused"),
    }
    let e = proxy_acu_chat(&upstream_env(&[]), "acu/x", body).err().unwrap();
    assert_eq!(told(&e), (502, "acu 通道暂不可用，请稍后重试".to_string()));
}

#[test]
fn granted_slots_are_given_back() {
    let release = upstream_doc(r#"{"cmd": "release"}"#);
    assert_eq!(release_acu(Slot::Held), Some(release.clone()));
    assert_eq!(release_acu(Slot::Wait(3)), None);
    let env = upstream_env(&[("ACU_KEY", "k")]);
    let chat = proxy_acu_chat(&env, "acu/x", b"{").ok().unwrap();
    match acu_send(chat, Slot::Held) {
        AcuStep::Refuse(given, reply) => {
            assert_eq!(given, Some(release.clone()));
            assert_eq!(reply.status, 400);
            assert!(told(&reply).1.starts_with("请求体不是合法 JSON：EOF"));
        }
        AcuStep::Send(_) => panic!("sent"),
    }
    let (given, reply) = acu_done(Slot::Held, false);
    assert_eq!(given, Some(release.clone()));
    assert_eq!(told(&reply.unwrap()), (502, "acu 上游不可达，请稍后重试".to_string()));
    let (given, reply) = acu_done(Slot::Held, true);
    assert_eq!(given, Some(release));
    assert!(reply.is_none());
    assert_eq!(acu_done(Slot::Free, true).0, None);
    let (given, reply) = acu_unsent(Slot::Held);
    assert_eq!(given, Some(upstream_doc(r#"{"cmd": "release"}"#)));
    assert_eq!(told(&reply), (502, "acu 上游不可达，请稍后重试".to_string()));
    assert_eq!(acu_unsent(Slot::Wait(1)).0, None);
}

#[test]
fn bodies_without_members_are_known() {
    let env = upstream_env(&[("ACU_KEY", "k")]);
    assert!(!names_model(&proxy_acu_chat(&env, "acu/x", b"[]").ok().unwrap().parsed));
    assert!(names_model(&proxy_acu_chat(&env, "acu/x", b"null").ok().unwrap().parsed));
    assert!(names_model(&proxy_acu_chat(&env, "acu/x", b"").ok().unwrap().parsed));
}

// ---------------------------------------------------------------------------
// Workers AI
// ---------------------------------------------------------------------------
#[test]
fn neurons_are_estimated() {
    assert_eq!(estimate_wai_neurons(&[]), UNITS);
    assert_eq!(estimate_wai_neurons(&[0; 682]), UNITS);
    assert_eq!(estimate_wai_neurons(&[0; 683]), 2049);
    assert_eq!(estimate_wai_neurons(&[0; 2048]), 3 * UNITS);
    assert_eq!(SPEECH_AMOUNT, 10 * UNITS);
    let exact = (683.0_f64 / 1024.0 * 1.5).max(1.0);
    assert_eq!(estimate_wai_neurons(&[0; 683]) as f64 / UNITS as f64, exact);
}

#[test]
fn the_budget_decides() {
    let doc = |text: &str| Checked::Document(upstream_doc(text));
    let ok = doc(r#"{"allowed": true, "account_id": "a", "token": "t"}"#);
    let account = check_budget(Service::Chat, &ok).ok().unwrap();
    assert_eq!((account.id.as_str(), account.token.as_str()), ("a", "t"));
    let refusal = |service: Service, checked: Checked| told(&check_budget(service, &checked).err().unwrap());
    assert_eq!(
        refusal(Service::Chat, doc(r#"{"allowed": false}"#)),
        (429, CHAT_EXHAUSTED.to_string())
    );
    assert_eq!(refusal(Service::Speech, Checked::Unreadable), (429, SPEECH_EXHAUSTED.to_string()));
    assert_eq!(refusal(Service::Chat, Checked::Unreached), (502, WAI_UNAVAILABLE.to_string()));
    assert_eq!(
        refusal(Service::Chat, doc(r#"{"allowed": true, "account_id": "a"}"#)),
        (502, WAI_UNAVAILABLE.to_string())
    );
    assert_eq!(
        refusal(Service::Speech, doc(r#"{"allowed": true, "token": "t", "account_id": ""}"#)),
        (502, WAI_UNAVAILABLE.to_string())
    );
    assert_eq!(told(&budget_unavailable()), (500, WAI_UNAVAILABLE.to_string()));
    assert_eq!(told(&not_reached(Service::Speech)), (502, SPEECH_FAILED.to_string()));
    assert_eq!(told(&not_reached(Service::Chat)), (502, WAI_UNAVAILABLE.to_string()));
}

#[test]
fn models_have_their_full_names() {
    assert_eq!(wai_upstream_model("workers-ai/llama-3.2-1b"), "meta/llama-3.2-1b-instruct");
    assert_eq!(
        wai_upstream_model("workers-ai/llama-3.1-8b"),
        "meta/llama-3.1-8b-instruct-fp8-fast"
    );
    assert_eq!(wai_upstream_model("melotts"), "myshell-ai/melotts");
    assert_eq!(
        wai_upstream_model("workers-ai/mistral-small-24b"),
        "mistralai/mistral-small-3.1-24b-instruct"
    );
    assert_eq!(wai_upstream_model("workers-ai/other"), "other");
    assert_eq!(wai_upstream_model("workers-ai-tts/x"), "workers-ai-tts/x");
}

#[test]
fn chats_for_workers_ai_have_a_limit() {
    let account = Account { id: "acc".to_string(), token: "tok".to_string() };
    let chat = |model: &str, body: &[u8]| proxy_workers_ai_chat(Service::Chat, &account, model, body);
    let q = chat("workers-ai/qwq-32b", br#"{"model": "workers-ai/qwq-32b"}"#).unwrap().ok().unwrap();
    assert_eq!(
        q.url,
        "https://api.cloudflare.com/client/v4/accounts/acc/ai/v1/chat/completions"
    );
    assert_eq!(header(&q, "Authorization"), Some("Bearer tok"));
    assert_eq!(q.body, Some(br#"{"max_tokens":1024,"model":"qwen/qwq-32b"}"#.to_vec()));
    let q = chat("m", br#"{"model": "m", "max_tokens": 5}"#).unwrap().ok().unwrap();
    assert_eq!(q.body, Some(br#"{"max_tokens":5,"model":"m"}"#.to_vec()));
    let e = chat("m", b"x").unwrap().err().unwrap();
    assert_eq!(e.status, 400);
    assert!(told(&e).1.starts_with("请求体不是合法 JSON："));
    assert!(chat("m", b"[]").is_none());
    let parsed = Ok(upstream_doc(r#"{"max_tokens": null}"#));
    let q = prepare_body(Service::Chat, &account, "m", parsed).ok().unwrap();
    assert_eq!(q.body, Some(br#"{"max_tokens":null,"model":"m"}"#.to_vec()));
    let q = proxy_workers_ai_chat(Service::Embeddings, &account, "workers-ai/m", b"{}");
    let q = q.unwrap().ok().unwrap();
    assert_eq!(q.url, "https://api.cloudflare.com/client/v4/accounts/acc/ai/v1/embeddings");
    assert_eq!(q.body, Some(br#"{"model":"m"}"#.to_vec()));
}

#[test]
fn speech_is_asked_for() {
    let account = Account { id: "acc".to_string(), token: "tok".to_string() };
    let q = speech_request(&account, "workers-ai/melotts", upstream_doc(r#"{"input": "hi"}"#));
    assert_eq!(q.url, "https://api.cloudflare.com/client/v4/accounts/acc/ai/v1/audio/speech");
    assert_eq!(q.body, Some(br#"{"input":"hi","model":"myshell-ai/melotts"}"#.to_vec()));
}

// ---------------------------------------------------------------------------
// Endpoints
// ---------------------------------------------------------------------------
#[test]
fn chats_are_routed() {
    let env = upstream_env(&[("SPARK_KEY", "s"), ("GITEE_KEY", "g")]);
    let plan = |model: &str| {
        let text = format!(r#"{{"model": "{}"}}"#, model);
        plan_chat(&env, &upstream_doc(&text), text.as_bytes()).ok().unwrap()
    };
    assert!(matches!(plan("acu/x").plan, Plan::Acu));
    assert!(matches!(plan("workers-ai/x").plan, Plan::WorkersAi(Service::Chat)));
    assert!(matches!(plan("workers-ai-tts/x").plan, Plan::WorkersAi(Service::Chat)));
    assert!(matches!(plan("whatever").plan, Plan::Pool(Service::Chat)));
    assert_eq!(answered(plan("zhipu/x")), (502, UNCONFIGURED.to_string()));
    let spark = plan("spark/spark-lite");
    assert_eq!(spark.model, "spark/spark-lite");
    assert_eq!(spark.provider, Provider::Spark);
    let q = forwarded(spark);
    assert_eq!(q.url, "https://spark-api-open.xf-yun.com/v1/chat/completions");
    assert_eq!(header(&q, "Host"), Some("spark-api-open.xf-yun.com"));
    let q = forwarded(plan("GLM-4-9B-0414"));
    assert_eq!(q.url, "https://ai.gitee.com/v1/chat/completions");
    assert_eq!(header(&q, "Host"), None);
    assert_eq!(q.body, Some(br#"{"model": "GLM-4-9B-0414"}"#.to_vec()));
}

#[test]
fn chats_that_ask_for_nothing_are_refused() {
    let env = upstream_env(&[]);
    let refusal = |body: Option<&[u8]>| told(&handle_chat(&env, body).err().unwrap());
    assert_eq!(refusal(None), (400, "请求体读取失败，请检查网络后重试".to_string()));
    assert!(refusal(Some(b"{,}")).1.starts_with("请求体不是合法 JSON：key must be a string"));
    assert_eq!(
        refusal(Some(b"{}")),
        (
            400,
            "缺少 model 字段：请求体必须包含 \"model\": \"<模型 ID>\"，可先 GET /v1/models 查看可用模型"
                .to_string()
        )
    );
    assert_eq!(refusal(Some(br#"{"model": 5}"#)).0, 400);
    assert!(matches!(
        handle_chat(&env, Some(br#"{"model": "m"}"#)).ok().unwrap().plan,
        Plan::Pool(Service::Chat)
    ));
}

#[test]
fn speech_is_routed() {
    let env = upstream_env(&[("GITEE_KEY", "g")]);
    let call = handle_speech(&env, Some(br#"{"model": "Spark-TTS-0.5B"}"#)).ok().unwrap();
    assert_eq!(forwarded(call).url, "https://ai.gitee.com/v1/audio/speech");
    let call = plan_speech(&env, upstream_doc(r#"{"model": "workers-ai/melotts"}"#), b"");
    assert!(matches!(call.plan, Plan::Speech(_)));
    let plan = |model: &str| {
        let document = upstream_doc(&format!(r#"{{"model": "{}"}}"#, model));
        plan_speech(&env, document, b"x").plan
    };
    assert!(matches!(plan("workers-ai-tts/x"), Plan::Speech(_)));
    assert!(matches!(plan("acu/x"), Plan::Acu));
    assert!(matches!(plan("nvidia/x"), Plan::Pool(Service::Speech)));
    assert!(matches!(plan("whatever"), Plan::Speech(_)));
    match plan("zhipu/x") {
        Plan::Answer(reply) => assert_eq!(told(&reply), (502, UNCONFIGURED.to_string())),
        _ => panic!("no answer"),
    }
    let call = handle_speech(&env, Some(b"{}")).ok().unwrap();
    assert_eq!(call.model, "");
    assert!(matches!(call.plan, Plan::Speech(_)));
    assert_eq!(
        told(&handle_speech(&env, None).err().unwrap()),
        (400, "Bad Request".to_string())
    );
    assert_eq!(handle_speech(&env, Some(b"x")).err().unwrap().status, 400);
}

#[test]
fn transcriptions_are_handed_on_unread() {
    let env = upstream_env(&[("GITEE_KEY", "g")]);
    let upload = |content_type: Option<&str>| {
        match handle_transcriptions(&env, content_type, Some(b"\xff\x00")) {
            Plan::Forward(q) => {
                assert_eq!(q.url, "https://ai.gitee.com/v1/audio/transcriptions");
                assert_eq!(q.method, Method::Post);
                assert_eq!(header(&q, "Authorization"), Some("Bearer g"));
                assert_eq!(q.body, Some(vec![0xff, 0x00]));
                header(&q, "Content-Type").unwrap().to_string()
            }
            _ => panic!("no request"),
        }
    };
    let multipart = "multipart/form-data; boundary=x";
    assert_eq!(upload(Some(multipart)), multipart);
    assert_eq!(upload(Some("")), "application/json");
    assert_eq!(upload(None), "application/json");
    match handle_transcriptions(&upstream_env(&[]), Some(multipart), Some(b"")) {
        Plan::Answer(reply) => assert_eq!(told(&reply).0, 502),
        _ => panic!("no answer"),
    }
    match handle_transcriptions(&env, None, None) {
        Plan::Answer(reply) => assert_eq!(told(&reply).0, 400),
        _ => panic!("no answer"),
    }
}

#[test]
fn services_are_routed() {
    let env = upstream_env(&[("GITEE_KEY", "g"), ("SILICONFLOW_KEY", "s"), ("ZHIPU_KEY", "z")]);
    let body = |model: &str| format!(r#"{{"model": "{}"}}"#, model).into_bytes();
    let q = forwarded(handle_embeddings(&env, Some(&body("BAAI/bge-m3"))).ok().unwrap());
    assert_eq!(q.url, "https://api.siliconflow.cn/v1/embeddings");
    let q = forwarded(handle_embeddings(&env, Some(&body("gitee-ai/x"))).ok().unwrap());
    assert_eq!(q.url, "https://ai.gitee.com/v1/embeddings");
    let q = forwarded(handle_embeddings(&env, Some(&body("zhipu/x"))).ok().unwrap());
    assert_eq!(q.url, "https://open.bigmodel.cn/api/paas/v4/embeddings");
    assert_eq!(header(&q, "Authorization"), Some("Bearer z"));
    let q = forwarded(handle_images(&env, Some(&body("zhipu/cogview-3-flash"))).ok().unwrap());
    assert_eq!(q.url, "https://open.bigmodel.cn/api/paas/v4/images/generations");
    let q = forwarded(handle_images(&env, Some(&body("siliconflow/x"))).ok().unwrap());
    assert_eq!(q.url, "https://api.siliconflow.cn/v1/images/generations");
    let q = forwarded(handle_videos(&env, Some(&body("zhipu/cogvideox-flash"))).ok().unwrap());
    assert_eq!(q.url, "https://open.bigmodel.cn/api/paas/v4/videos/generations");
    let q = forwarded(handle_videos(&env, Some(&body("gitee-ai/x"))).ok().unwrap());
    assert_eq!(q.url, "https://ai.gitee.com/v1/videos/generations");
    let q = forwarded(handle_rerank(&env, Some(&body("bge-reranker-v2-m3"))).ok().unwrap());
    assert_eq!(q.url, "https://ai.gitee.com/v1/rerank");
    assert_eq!(handle_rerank(&env, Some(b"")).err().unwrap().status, 400);
    let none = upstream_env(&[]);
    assert_eq!(
        answered(handle_rerank(&none, Some(&body("gitee-ai/x"))).ok().unwrap()),
        (502, UNCONFIGURED.to_string())
    );
    assert_eq!(
        answered(handle_images(&env, Some(&body("spark/x"))).ok().unwrap()),
        (502, UNCONFIGURED.to_string())
    );
}

#[test]
fn services_keep_to_the_channel_of_the_model() {
    let env = upstream_env(&[]);
    let plan = |model: &str| {
        let body = format!(r#"{{"model": "{}"}}"#, model).into_bytes();
        handle_embeddings(&env, Some(&body)).ok().unwrap().plan
    };
    assert!(matches!(plan("acu/x"), Plan::Acu));
    assert!(matches!(plan("workers-ai/x"), Plan::WorkersAi(Service::Embeddings)));
    assert!(matches!(plan("workers-ai-tts/x"), Plan::WorkersAi(Service::Embeddings)));
    assert!(matches!(plan("nvidia/embed-qa-4"), Plan::Pool(Service::Embeddings)));
    assert!(matches!(plan("whatever"), Plan::Pool(Service::Embeddings)));
    assert!(matches!(plan(""), Plan::Pool(Service::Embeddings)));
    assert!(matches!(
        handle_rerank(&env, Some(b"{}")).ok().unwrap().plan,
        Plan::Pool(Service::Rerank)
    ));
    assert_eq!(
        told(&forward_failed()),
        (502, "Bad Gateway: upstream unreachable".to_string())
    );
}

#[test]
fn moderations_need_a_model() {
    let env = upstream_env(&[("GITEE_KEY", "g")]);
    let e = plan_moderation(&env, &upstream_doc("{}"), b"{}").err().unwrap();
    assert!(told(&e).1.starts_with("缺少 model 字段：文本审核请使用"));
    let body = br#"{"model": "Security-semantic-filtering"}"#;
    let q = forwarded(handle_moderations(&env, Some(body)).ok().unwrap());
    assert_eq!(q.url, "https://ai.gitee.com/v1/moderations");
    let e = handle_moderations(&env, Some(b"?")).err().unwrap();
    assert!(told(&e).1.starts_with("请求体不是合法 JSON："));
    assert_eq!(
        told(&handle_moderations(&env, None).err().unwrap()).1,
        "请求体读取失败，请检查网络后重试"
    );
}
