use aqua_gateway::assets::{asset_headers, asset_key, asset_type, not_found};
use aqua_gateway::catalog::{CATALOG_LEN, MODEL_CATALOG, Provider};
use aqua_gateway::command::command;
use aqua_gateway::config::Env;
use aqua_gateway::health::{Health, compute_all_health, counts, health_document};
use aqua_gateway::location::{
    Found, Lookup, answer_place, ask_ip, fallback_done, handle_ip_location, look_up, primary_done,
};
use aqua_gateway::models::{
    Blocked, cached_headers, fetch_blocked_models, fetch_wai_exhausted, handle_models,
    model_document,
};
use aqua_gateway::outcome::ErrType;
use aqua_gateway::record::{
    CLEAR_HEALTH_SQL, CLEAR_LOG_SQL, HEALTH_SQL, LOG_SQL, log_chat, log_request,
    maybe_cleanup_health, record_chat, record_health, stats_statement,
};
use aqua_gateway::reply::{Reply, cors_headers, err_invalid_key, err_res, passthrough};
use aqua_gateway::upstream::Method;
use serde_json::Value;

fn service_env(list: &[(&str, &str)]) -> Env {
    Env { vars: list.iter().map(|(k, v)| (k.to_string(), v.to_string())).collect() }
}

fn service_doc(text: &str) -> Value {
    serde_json::from_str(text).unwrap()
}

fn said(reply: &Reply) -> (u16, String) {
    (reply.status, reply.json["error"]["message"].as_str().unwrap().to_string())
}

// ---------------------------------------------------------------------------
// Replies
// ---------------------------------------------------------------------------
#[test]
fn errors_have_one_form() {
    assert_eq!(
        err_res(418, "no").json,
        service_doc(
            r#"{"error": {"message": "no", "type": "api_error", "code": 418, "help": {
                "site": "https://acu.ltzy.top", "qq_guild": "pd57362562",
                "qq_guild_url": "https://pd.qq.com/s/e4ktxw1b8", "qq_group": 1103667832}}}"#
        )
    );
    let r = err_invalid_key();
    assert_eq!(r.status, 401);
    assert_eq!(r.json["error"]["type"], Value::from("invalid_api_key"));
    assert_eq!(r.json["error"]["code"], Value::from(401));
}

#[test]
fn replies_are_handed_on_with_their_type() {
    let mut cors = Vec::new();
    cors_headers(&mut cors);
    assert_eq!(cors.len(), 4);
    assert_eq!(cors[0], ("Access-Control-Allow-Origin".to_string(), "*".to_string()));
    assert_eq!(cors[3], ("Access-Control-Max-Age".to_string(), "86400".to_string()));
    let headers = passthrough(Some("text/event-stream"));
    assert_eq!(headers[0], ("Content-Type".to_string(), "text/event-stream".to_string()));
    assert_eq!(headers[1..], cors[..]);
    assert_eq!(passthrough(Some("")), cors);
    assert_eq!(passthrough(None), cors);
    assert_eq!(command("blocked"), service_doc(r#"{"cmd": "blocked"}"#));
}

// ---------------------------------------------------------------------------
// Addresses
// ---------------------------------------------------------------------------
#[test]
fn the_address_is_named_or_the_callers() {
    let asked = |text: &str, c: Option<&str>, f: Option<&str>| {
        ask_ip(&service_doc(text), c, f).map_err(|e| said(&e).1)
    };
    assert_eq!(asked(r#"{"ip": " 8.8.8.8 "}"#, Some("1.1.1.1"), None), Ok("8.8.8.8".to_string()));
    assert_eq!(asked("{}", Some("1.1.1.1"), Some("2.2.2.2")), Ok("1.1.1.1".to_string()));
    assert_eq!(asked(r#"{"ip": " "}"#, None, Some(" 2.2.2.2 , 3.3.3.3")), Ok("2.2.2.2".to_string()));
    assert!(asked("{}", None, None).unwrap_err().starts_with("缺少 ip 字段"));
    assert!(asked("{}", Some(""), Some("2.2.2.2")).unwrap_err().starts_with("缺少 ip 字段"));
    assert_eq!(
        asked(r#"{"ip": "8.8"}"#, None, None),
        Err("IP 格式不正确：「8.8」不是合法的 IPv4/IPv6 地址，请检查后重试".to_string())
    );
    assert_eq!(
        asked(r#"{"ip": "10.0.0.1"}"#, None, None),
        Err("「10.0.0.1」是内网/保留 IP，没有公网归属地信息。请查询公网 IP，或留空 ip 字段自动查询调用方出口 IP"
            .to_string())
    );
}

#[test]
fn addresses_are_looked_up() {
    let env = service_env(&[("GITEE_KEY", "g")]);
    match look_up(&env, "8.8.8.8") {
        Lookup::Primary(q) => {
            assert_eq!(q.url, "https://ai.gitee.com/v1/ip_location?ip=8.8.8.8");
            assert_eq!(q.method, Method::Get);
            assert_eq!(q.body, None);
            assert_eq!(q.headers[1], ("Authorization".to_string(), "Bearer g".to_string()));
        }
        Lookup::Fallback(_) => panic!("passed over"),
    }
    let fallback = "http://ip-api.com/json/8.8.8.8?lang=zh-CN&fields=status,country,regionName,city,isp,org,as,lat,lon,timezone,query";
    match look_up(&service_env(&[]), "8.8.8.8") {
        Lookup::Fallback(q) => {
            assert_eq!(q.url, fallback);
            assert_eq!(q.headers.len(), 1);
        }
        Lookup::Primary(_) => panic!("no key"),
    }
    assert!(matches!(look_up(&env, "::1"), Lookup::Fallback(_)));
    assert!(primary_done("8.8.8.8", Some(200)).is_none());
    assert!(primary_done("8.8.8.8", Some(399)).is_none());
    assert_eq!(primary_done("8.8.8.8", Some(400)).unwrap().url, fallback);
    assert_eq!(primary_done("8.8.8.8", None).unwrap().url, fallback);
}

#[test]
fn requests_for_an_address_are_read() {
    let env = service_env(&[]);
    let (ip, first) = handle_ip_location(&env, Some(b"not json"), Some("1.1.1.1"), None).ok().unwrap();
    assert_eq!(ip, "1.1.1.1");
    assert!(matches!(first, Lookup::Fallback(_)));
    let e = handle_ip_location(&env, None, Some("1.1.1.1"), None).err().unwrap();
    assert_eq!(said(&e), (400, "请求体读取失败，请检查网络后重试".to_string()));
}

#[test]
fn places_are_told_in_one_form() {
    let text = r#"{"status": "success", "country": "美国", "regionName": "CA", "lat": 1.5, "query": "8.8.8.8"}"#;
    let r = fallback_done("8.8.8.8", &Found::Text(203, text.to_string()));
    assert_eq!(r.status, 203);
    assert_eq!(
        r.json,
        service_doc(
            r#"{"ip": "8.8.8.8", "country": "美国", "province": "CA", "city": null, "isp": null,
                "org": null, "as": null, "lat": 1.5, "lon": null, "timezone": null,
                "data_source": "ip-api.com（备用数据集）"}"#
        )
    );
    let r = answer_place("9.9.9.9", 500, &service_doc(r#"{"status": "success"}"#));
    assert_eq!(r.status, 200);
    assert_eq!(r.json["ip"], Value::from("9.9.9.9"));
}

#[test]
fn places_that_are_not_found_are_told() {
    let r = fallback_done("8.8.8.8", &Found::Text(200, "oops".to_string()));
    assert_eq!(
        said(&r),
        (400, "备用数据源未能查询到「8.8.8.8」的归属地信息（可能为保留/未分配 IP）".to_string())
    );
    assert_eq!(fallback_done("8.8.8.8", &Found::Unreadable).status, 502);
    assert_eq!(
        said(&fallback_done("::1", &Found::Unreached)).1,
        "IPv6 查询备用数据源不可达，请稍后重试"
    );
    assert_eq!(
        said(&fallback_done("8.8.8.8", &Found::Unreached)).1,
        "IP 查询的主/备数据源均不可达（Gitee AI 与 ip-api 均失败），请稍后重试"
    );
}

// ---------------------------------------------------------------------------
// Records
// ---------------------------------------------------------------------------
#[test]
fn requests_are_logged() {
    let s = log_request(100, "GET", "/p", "m", "u", 404, -1);
    assert_eq!(s.sql, LOG_SQL);
    assert_eq!(s.args, ["100", "GET", "/p", "m", "u", "404", "-1"]);
    let s = log_chat(100, "m", Provider::WorkersAiTts, None, 3);
    assert_eq!(
        s.args,
        ["100", "POST", "/v1/chat/completions", "m", "workers-ai-tts", "502", "3"]
    );
}

#[test]
fn chats_are_recorded() {
    let s = record_health(100, "m", false, ErrType::NetworkError, 502, 7);
    assert_eq!(s.sql, HEALTH_SQL);
    assert_eq!(s.args, ["m", "100", "0", "network_error", "502", "7"]);
    assert_eq!(record_chat(100, "m", Some(200), 2).args, ["m", "100", "1", "success", "200", "2000"]);
    assert_eq!(record_chat(1, "m", Some(429), 0).args[3], "rate_limited");
    assert_eq!(record_chat(1, "m", Some(404), 0).args[3], "client_error");
    assert_eq!(record_chat(1, "m", None, 0).args[2..5], ["0", "upstream_error", "502"]);
}

#[test]
fn old_records_are_cleared_away() {
    let now = 2_000_000;
    let c = maybe_cleanup_health(None, now).unwrap();
    assert_eq!(c.health.sql, CLEAR_HEALTH_SQL);
    assert_eq!(c.log.sql, CLEAR_LOG_SQL);
    assert_eq!(c.health.args, ["1395200"]);
    assert_eq!(c.log.args, ["1395200"]);
    assert_eq!(c.mark, "2000000");
    assert!(maybe_cleanup_health(Some(&c.mark), now + 21600).is_none());
    assert!(maybe_cleanup_health(Some(&c.mark), now + 21601).is_some());
    assert!(maybe_cleanup_health(Some("soon"), now).is_some());
    assert_eq!(stats_statement(now).args, ["790400"]);
}

#[test]
fn health_is_gathered() {
    let rows = vec![
        service_doc(r#"{"model": "a", "total": 4, "ok_cnt": 3, "rate_cnt": -1, "net_cnt": 1}"#),
        service_doc(r#"{"total": 9}"#),
        service_doc(r#"{"model": "b", "total": "x", "to_cnt": 2}"#),
    ];
    let c = counts(&rows[0]);
    assert_eq!((c.total, c.ok, c.rate_limited, c.network, c.timeout), (4, 3, 0, 1, 0));
    let c = counts(&rows[2]);
    assert_eq!((c.total, c.timeout), (0, 2));
    let h = |n: i64| Health { total: n, ok: n, avg_latency_ms: n, score: n };
    assert_eq!(
        health_document(&h(1)),
        service_doc(r#"{"total": 1, "ok": 1, "avg_latency_ms": 1, "score": 1}"#)
    );
    let all = compute_all_health(&rows, &[h(1), h(2), h(3)]);
    assert_eq!(all.as_object().unwrap().len(), 2);
    assert_eq!(all["a"]["score"], Value::from(1));
    assert_eq!(all["b"]["score"], Value::from(3));
}

// ---------------------------------------------------------------------------
// Models
// ---------------------------------------------------------------------------
#[test]
fn blocked_models_are_read() {
    let answer = service_doc(
        r#"{"blocked": [{"model": "a", "until": 5}, {"model": "b"}, {"model": "a", "until": 9}]}"#,
    );
    let b = fetch_blocked_models(Some(&answer));
    assert_eq!(b.get("a"), Some(9));
    assert_eq!(b.get("b"), None);
    assert_eq!(fetch_blocked_models(None).get("a"), None);
    assert_eq!(fetch_blocked_models(Some(&service_doc(r#"{"blocked": 1}"#))).get("a"), None);
    assert!(fetch_wai_exhausted(Some(&service_doc(r#"{"exhausted": true}"#))));
    assert!(!fetch_wai_exhausted(Some(&service_doc("{}"))));
    assert!(!fetch_wai_exhausted(None));
}

#[test]
fn models_are_listed() {
    let health = service_doc(r#"{"google/gemma-2b": {"score": 90}}"#);
    let blocked = Blocked {
        entries: vec![("google/gemma-2b".to_string(), 1), ("GLM-ASR".to_string(), 1)],
    };
    let (reply, text) = handle_models(7, &health, &blocked, true);
    assert_eq!(reply.status, 200);
    let cached: Value = serde_json::from_str(&text).unwrap();
    assert_eq!(cached, reply.json);
    let data = reply.json["data"].as_array().unwrap();
    assert_eq!(data.len(), CATALOG_LEN);
    for i in 0..CATALOG_LEN {
        assert_eq!(data[i]["id"], Value::from(MODEL_CATALOG[i].0));
        assert_eq!(data[i]["owned_by"], Value::from(MODEL_CATALOG[i].1));
        assert_eq!(data[i]["created"], Value::from(7));
        let spent = MODEL_CATALOG[i].1 == "workers-ai";
        assert_eq!(data[i]["status"] == Value::from("exhausted"), spent);
        let gone = MODEL_CATALOG[i].0 == "google/gemma-2b";
        assert_eq!(data[i]["status"] == Value::from("unavailable"), gone);
        assert_eq!(data[i].get("health").is_some(), gone);
    }
    assert_eq!(reply.json["object"], Value::from("list"));
}

#[test]
fn a_model_is_described() {
    assert_eq!(
        model_document("m", "o", 1, &service_doc(r#"{"m": 5}"#), true, true),
        service_doc(
            r#"{"id": "m", "object": "model", "created": 1, "owned_by": "o", "health": 5,
                "status": "unavailable",
                "status_msg": "该模型在上游不存在或已被拒绝（3+ 密钥无访问权限），10 分钟后自动重试"}"#
        )
    );
    let headers = cached_headers();
    assert_eq!(headers[0].1, "application/json; charset=utf-8");
    assert_eq!(headers.len(), 5);
}

// ---------------------------------------------------------------------------
// Assets
// ---------------------------------------------------------------------------
#[test]
fn assets_are_found_by_name() {
    assert_eq!(asset_key("/assets/a.png").as_deref(), Some("a.png"));
    assert_eq!(asset_key("a.png").as_deref(), Some("a.png"));
    assert_eq!(asset_key("//assets/b/c.mp3").as_deref(), Some("b/c.mp3"));
    assert_eq!(asset_key("/assets/"), None);
    assert_eq!(asset_key("/"), None);
    assert_eq!(asset_type("a.png"), "image/png");
    assert_eq!(asset_type("a.wav"), "audio/mpeg");
    assert_eq!(asset_type("a.mp3"), "audio/mpeg");
    assert_eq!(asset_type("a.jpeg"), "image/jpeg");
    assert_eq!(asset_type("a.jpg"), "image/jpeg");
    assert_eq!(asset_type("a.PNG"), "application/octet-stream");
    let headers = asset_headers("a.png");
    assert_eq!(headers[0], ("Content-Type".to_string(), "image/png".to_string()));
    assert_eq!(headers[1], ("Cache-Control".to_string(), "public, max-age=86400".to_string()));
    assert_eq!(headers.len(), 6);
    assert_eq!(said(&not_found()), (404, "Not Found".to_string()));
}
