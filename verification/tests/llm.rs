use wordpick::config::{EnvSnapshot, ProviderConfig};
use wordpick::llm::{
    build_first_messages, classify_status, completions_url, connection_test_result, error_kind_name,
    error_kinds, error_text, key_error, resolve_api_key, retry_step, send_error_kind, status_error,
    stop, stream_end_event, system_prompt, ChatEvent, ErrorKind, RetryStep, Scenario, StatusClass,
    StopFlags, CHAT_TEMPLATE, EXPLAIN_TEMPLATE, TRANSLATE_TEMPLATE,
};

fn provider(api_key: &str) -> ProviderConfig {
    ProviderConfig {
        name: "deepseek".to_string(),
        base_url: "https://api.deepseek.com/v1".to_string(),
        api_key: api_key.to_string(),
        default_model: "deepseek-v4-flash".to_string(),
    }
}

fn env(vars: &[(&str, &str)]) -> EnvSnapshot {
    EnvSnapshot { vars: vars.iter().map(|(k, v)| (k.to_string(), v.to_string())).collect() }
}

#[test]
fn translate_prompt_fills_languages() {
    let p = system_prompt(Scenario::Translate, "English", "Chinese");
    let expected = TRANSLATE_TEMPLATE.replace("{source_lang}", "English").replace("{target_lang}", "Chinese");
    assert_eq!(p, expected);
    assert!(p.contains("from English into Chinese"));
    assert!(!p.contains('{'));
}

#[test]
fn other_prompts_are_fixed() {
    assert_eq!(system_prompt(Scenario::Explain, "a", "b"), EXPLAIN_TEMPLATE);
    assert_eq!(system_prompt(Scenario::Chat, "a", "b"), CHAT_TEMPLATE);
}

#[test]
fn first_messages_are_system_then_user() {
    let m = build_first_messages(Scenario::Explain, "en".into(), "zh".into(), "closure".into());
    assert_eq!(m.len(), 2);
    assert_eq!(m[0].role, "system");
    assert_eq!(m[0].content, EXPLAIN_TEMPLATE);
    assert_eq!(m[1].role, "user");
    assert_eq!(m[1].content, "closure");
}

#[test]
fn all_error_kinds_in_order() {
    assert_eq!(
        error_kinds(),
        vec![
            ErrorKind::Network,
            ErrorKind::RateLimited,
            ErrorKind::InvalidKey,
            ErrorKind::BadRequest,
            ErrorKind::Server,
            ErrorKind::Unknown
        ]
    );
}

#[test]
fn api_key_resolution_order() {
    let e = env(&[("DEEPSEEK_API_KEY", "sk-env")]);
    assert_eq!(resolve_api_key(Some("sk-chain".into()), &provider("${DEEPSEEK_API_KEY}"), &e), Ok("sk-chain".into()));
    assert_eq!(resolve_api_key(Some(String::new()), &provider("${DEEPSEEK_API_KEY}"), &e), Ok("sk-env".into()));
    assert_eq!(resolve_api_key(None, &provider("plain"), &e), Ok("plain".into()));
    assert_eq!(resolve_api_key(None, &provider("${NOT_SET}"), &e), Err(ErrorKind::InvalidKey));
    assert_eq!(resolve_api_key(None, &provider(""), &e), Err(ErrorKind::InvalidKey));
}

#[test]
fn status_classes() {
    assert_eq!(classify_status(200), StatusClass::Proceed);
    assert_eq!(classify_status(429), StatusClass::RateLimited);
    assert_eq!(classify_status(401), StatusClass::InvalidKey);
    assert_eq!(classify_status(403), StatusClass::InvalidKey);
    assert_eq!(classify_status(404), StatusClass::ClientError);
    assert_eq!(classify_status(400), StatusClass::ClientError);
    assert_eq!(classify_status(500), StatusClass::ServerError);
    assert_eq!(classify_status(204), StatusClass::ServerError);
}

#[test]
fn status_errors() {
    assert_eq!(status_error(StatusClass::Proceed, "200 OK", ""), None);
    assert_eq!(
        status_error(StatusClass::RateLimited, "429", "x"),
        Some((ErrorKind::RateLimited, "请求过于频繁（429 限流），请稍后再试".to_string()))
    );
    assert_eq!(
        status_error(StatusClass::InvalidKey, "401", "x"),
        Some((ErrorKind::InvalidKey, "API Key 无效或未授权".to_string()))
    );
    assert_eq!(
        status_error(StatusClass::ClientError, "404 Not Found", "no model"),
        Some((ErrorKind::BadRequest, "请求被服务端拒绝（404 Not Found）：no model".to_string()))
    );
    assert_eq!(
        status_error(StatusClass::ServerError, "502 Bad Gateway", ""),
        Some((ErrorKind::Server, "服务端错误（502 Bad Gateway）：".to_string()))
    );
}

#[test]
fn connection_test_outcomes() {
    assert_eq!(connection_test_result(200, "200 OK", 123), Ok(123));
    assert_eq!(connection_test_result(429, "429", 1), Err((ErrorKind::RateLimited, "429 限流".to_string())));
    assert_eq!(connection_test_result(403, "403", 1), Err((ErrorKind::InvalidKey, "API Key 无效".to_string())));
    assert_eq!(
        connection_test_result(500, "500 Internal Server Error", 1),
        Err((ErrorKind::Server, "服务端返回 500 Internal Server Error".to_string()))
    );
}

#[test]
fn send_errors() {
    assert_eq!(send_error_kind(true, false), ErrorKind::Network);
    assert_eq!(send_error_kind(false, true), ErrorKind::Network);
    assert_eq!(send_error_kind(false, false), ErrorKind::Unknown);
}

#[test]
fn endpoint_url() {
    assert_eq!(completions_url("https://api.deepseek.com/v1"), "https://api.deepseek.com/v1/chat/completions");
    assert_eq!(completions_url("https://api.deepseek.com/v1//"), "https://api.deepseek.com/v1/chat/completions");
    assert_eq!(completions_url(""), "/chat/completions");
}

#[test]
fn retry_policy() {
    assert_eq!(retry_step(None, false, 0), RetryStep::Finish);
    assert_eq!(retry_step(Some(ErrorKind::Network), false, 0), RetryStep::Retry { attempt: 1, backoff_ms: 800 });
    assert_eq!(retry_step(Some(ErrorKind::Server), false, 1), RetryStep::Retry { attempt: 2, backoff_ms: 1600 });
    assert_eq!(retry_step(Some(ErrorKind::Network), false, 2), RetryStep::Fail);
    assert_eq!(retry_step(Some(ErrorKind::RateLimited), false, 0), RetryStep::Fail);
    assert_eq!(retry_step(Some(ErrorKind::InvalidKey), false, 0), RetryStep::Fail);
    assert_eq!(retry_step(Some(ErrorKind::BadRequest), false, 0), RetryStep::Fail);
    assert_eq!(retry_step(Some(ErrorKind::Network), true, 0), RetryStep::Fail);
}

#[test]
fn at_most_two_retries_in_a_row() {
    let mut attempts = 1;
    let mut retries = 0;
    loop {
        match retry_step(Some(ErrorKind::Network), false, retries) {
            RetryStep::Retry { attempt, .. } => {
                retries = attempt;
                attempts += 1;
            }
            _ => break,
        }
    }
    assert_eq!(attempts, 3);
}

#[test]
fn stream_end() {
    assert!(stream_end_event("r1".into(), Ok(())).is_none());
    match stream_end_event("r1".into(), Err((ErrorKind::Server, "boom".into()))) {
        Some(ChatEvent::Error { request_id, kind, message }) => {
            assert_eq!(request_id, "r1");
            assert_eq!(kind, ErrorKind::Server);
            assert_eq!(message, "boom");
        }
        _ => panic!("expected an error event"),
    }
}

#[test]
fn stop_flags_lifecycle() {
    let mut flags = StopFlags::new();
    assert!(!flags.is_stopped("a"));
    flags.register("a");
    flags.register("b");
    assert!(!flags.is_stopped("a"));
    stop(&mut flags, "a");
    assert!(flags.is_stopped("a"));
    assert!(!flags.is_stopped("b"));
    flags.remove("a");
    assert!(!flags.is_stopped("a"));
    stop(&mut flags, "a");
    assert!(!flags.is_stopped("a"));
    flags.stop("b");
    assert!(flags.is_stopped("b"));
    flags.register("b");
    assert!(!flags.is_stopped("b"));
}

#[test]
fn error_texts() {
    assert_eq!(error_kind_name(ErrorKind::RateLimited), "RateLimited");
    assert_eq!(error_text(ErrorKind::Network, "timed out"), "Network: timed out");
    assert_eq!(error_text(ErrorKind::InvalidKey, "API Key 无效"), "InvalidKey: API Key 无效");
    assert_eq!(key_error(ErrorKind::InvalidKey), (ErrorKind::InvalidKey, "API Key 未配置或无效".to_string()));
}
