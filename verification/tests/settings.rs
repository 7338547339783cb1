use aqua_gateway::admission::{Admission, screen};
use aqua_gateway::config::{
    AuthMode, Env, GITEE_BASE_DEFAULT, PLACEHOLDER, auth_mode, env_or, extract_key, key_valid,
    provider_cfg, url_host,
};
use aqua_gateway::catalog::{CATALOG_LEN, MODEL_CATALOG, Provider, provider_of};

fn settings(list: &[(&str, &str)]) -> Env {
    Env { vars: list.iter().map(|(k, v)| (k.to_string(), v.to_string())).collect() }
}

#[test]
fn settings_have_defaults() {
    let env = settings(&[("A", " x "), ("B", ""), ("C", "  "), ("D", PLACEHOLDER)]);
    assert_eq!(env_or(&env, "A", "d"), "x");
    assert_eq!(env_or(&env, "B", "d"), "d");
    assert_eq!(env_or(&env, "C", "d"), "d");
    assert_eq!(env_or(&env, "D", "d"), "d");
    assert_eq!(env_or(&env, "E", "d"), "d");
}

#[test]
fn upstreams_need_a_key() {
    let env = settings(&[("GITEE_KEY", " k "), ("ZHIPU_KEY", PLACEHOLDER), ("ACU_KEY", "a")]);
    let cfg = provider_cfg(&env, Provider::Gitee).unwrap();
    assert_eq!((cfg.base.as_str(), cfg.key.as_str()), (GITEE_BASE_DEFAULT, "k"));
    assert!(provider_cfg(&env, Provider::Zhipu).is_none());
    assert!(provider_cfg(&env, Provider::Spark).is_none());
    assert!(provider_cfg(&env, Provider::WorkersAi).is_none());
    let acu = provider_cfg(&env, Provider::Acu).unwrap();
    assert_eq!(acu.base, "");
}

#[test]
fn hosts_are_read_out_of_addresses() {
    assert_eq!(url_host("https://a.example/v1"), Some("a.example"));
    assert_eq!(url_host("http://1.2.3.4:80"), Some("1.2.3.4:80"));
    assert_eq!(url_host("https:///v1"), None);
    assert_eq!(url_host("ftp://a"), None);
}

#[test]
fn keys_are_read_out_of_headers() {
    assert_eq!(extract_key(Some("Bearer  k "), None).as_deref(), Some("k"));
    assert_eq!(extract_key(Some("bearer k"), Some("x")).as_deref(), Some("k"));
    assert_eq!(extract_key(Some("Bearer "), Some(" x ")).as_deref(), Some("x"));
    assert_eq!(extract_key(Some("Basic k"), None), None);
    assert_eq!(extract_key(None, Some("  ")), None);
    assert_eq!(extract_key(None, None), None);
}

#[test]
fn only_the_word_key_closes_the_gateway() {
    assert_eq!(auth_mode(&settings(&[])), AuthMode::Open);
    assert_eq!(auth_mode(&settings(&[("AUTH_MODE", "open")])), AuthMode::Open);
    assert_eq!(auth_mode(&settings(&[("AUTH_MODE", "KEY")])), AuthMode::Open);
    assert_eq!(auth_mode(&settings(&[("AUTH_MODE", "key")])), AuthMode::Key);
}

#[test]
fn listed_keys_are_valid() {
    let env = settings(&[("GATEWAY_KEYS", " a , b,,c d ")]);
    assert!(key_valid(&env, "a"));
    assert!(key_valid(&env, "b"));
    assert!(key_valid(&env, "c d"));
    assert!(!key_valid(&env, ""));
    assert!(!key_valid(&env, "ab"));
    assert!(!key_valid(&settings(&[]), "a"));
}

fn admitted(a: Admission) -> Option<bool> {
    match a {
        Admission::Preflight => None,
        Admission::Refused(reply) => {
            assert_eq!(reply.status, 401);
            assert_eq!(reply.json["error"]["type"], serde_json::Value::from("invalid_api_key"));
            assert_eq!(
                reply.json["error"]["help"]["qq_guild"],
                serde_json::Value::from("pd57362562")
            );
            Some(false)
        }
        Admission::Admitted => Some(true),
    }
}

#[test]
fn requests_are_screened() {
    let open = settings(&[]);
    let closed = settings(&[("AUTH_MODE", "key"), ("GATEWAY_KEYS", "k")]);
    let chat = "/v1/chat/completions";
    assert_eq!(admitted(screen(&open, true, chat, None, None)), None);
    assert_eq!(admitted(screen(&open, false, chat, None, None)), Some(false));
    assert_eq!(admitted(screen(&open, false, chat, Some("Bearer 任意"), None)), Some(true));
    assert_eq!(admitted(screen(&closed, false, chat, Some("Bearer x"), None)), Some(false));
    assert_eq!(admitted(screen(&closed, false, chat, None, Some("k"))), Some(true));
    assert_eq!(admitted(screen(&closed, false, "/", None, None)), Some(true));
    assert_eq!(admitted(screen(&closed, false, "/v1/models", None, None)), Some(true));
    assert_eq!(admitted(screen(&closed, false, "/v1/models/", None, None)), Some(false));
}

#[test]
fn prefixes_decide() {
    assert_eq!(provider_of("zhipu/x"), Provider::Zhipu);
    assert_eq!(provider_of("spark/x"), Provider::Spark);
    assert_eq!(provider_of("siliconflow/x"), Provider::Siliconflow);
    assert_eq!(provider_of("gitee-ai/x"), Provider::Gitee);
    assert_eq!(provider_of("workers-ai-tts/x"), Provider::WorkersAiTts);
    assert_eq!(provider_of("workers-ai/x"), Provider::WorkersAi);
    assert_eq!(provider_of("acu/deepseek-v4-flash"), Provider::Acu);
    assert_eq!(provider_of("nvidia/anything"), Provider::Nvidia);
}

#[test]
fn the_catalogue_decides_without_a_prefix() {
    assert_eq!(provider_of("GLM-ASR"), Provider::Gitee);
    assert_eq!(provider_of("BAAI/bge-m3"), Provider::Siliconflow);
    assert_eq!(provider_of("google/gemma-2b"), Provider::Nvidia);
    assert_eq!(provider_of("never-heard-of"), Provider::Nvidia);
    assert_eq!(provider_of(""), Provider::Nvidia);
    assert_eq!(MODEL_CATALOG.len(), CATALOG_LEN);
    assert_eq!(CATALOG_LEN, 144);
    assert_eq!(provider_of("workers-ai/melotts").label(), "workers-ai");
}
