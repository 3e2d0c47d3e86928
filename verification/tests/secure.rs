use wordpick::config::{EnvSnapshot, ProviderConfig};
use wordpick::secure::{get_api_key_mask, has_any_api_key, is_maskable, mask_key};

fn provider(name: &str, api_key: &str) -> ProviderConfig {
    ProviderConfig {
        name: name.to_string(),
        base_url: "https://example.com/v1".to_string(),
        api_key: api_key.to_string(),
        default_model: "m".to_string(),
    }
}

fn env(vars: &[(&str, &str)]) -> EnvSnapshot {
    EnvSnapshot { vars: vars.iter().map(|(k, v)| (k.to_string(), v.to_string())).collect() }
}

#[test]
fn masks_key() {
    assert_eq!(mask_key("sk-abcdef123456"), "****3456");
    assert_eq!(mask_key("abcd"), "****");
    assert_eq!(mask_key("ab"), "****");
}

#[test]
fn mask_of_five_bytes_shows_four() {
    assert_eq!(mask_key("abcde"), "****bcde");
    assert_eq!(mask_key(""), "****");
}

#[test]
fn maskable_needs_char_boundary() {
    assert!(is_maskable("sk-abcdef123456"));
    assert!(is_maskable("ab"));
    // "é" is two bytes: the last four bytes of "aé€" start inside "é".
    assert!(!is_maskable("aé€"));
    assert!(is_maskable("ab€x"));
}

#[test]
fn mask_prefers_keychain() {
    let ps = vec![provider("deepseek", "plain-secret-9999")];
    let e = env(&[]);
    assert_eq!(
        get_api_key_mask("deepseek", Some("sk-from-keychain-1234".to_string()), &ps, &e),
        Some("****1234".to_string())
    );
}

#[test]
fn mask_falls_back_to_config_and_env() {
    let ps = vec![provider("deepseek", "plain-secret-9999"), provider("openai", "${OPENAI_API_KEY}")];
    let e = env(&[("OPENAI_API_KEY", "sk-env-key-5678")]);
    assert_eq!(get_api_key_mask("deepseek", Some(String::new()), &ps, &e), Some("****9999".to_string()));
    assert_eq!(get_api_key_mask("openai", None, &ps, &e), Some("****5678".to_string()));
}

#[test]
fn mask_none_for_unknown_or_empty() {
    let ps = vec![provider("qwen", "${DASHSCOPE_API_KEY}")];
    let e = env(&[]);
    assert_eq!(get_api_key_mask("qwen", None, &ps, &e), None);
    assert_eq!(get_api_key_mask("moonshot", None, &ps, &e), None);
}

#[test]
fn any_key_from_keychain_config_or_env() {
    let ps = vec![provider("deepseek", "${DEEPSEEK_API_KEY}"), provider("openai", "${OPENAI_API_KEY}")];
    assert!(!has_any_api_key(&ps, &vec![None, None], &env(&[])));
    assert!(has_any_api_key(&ps, &vec![None, Some("k".to_string())], &env(&[])));
    assert!(!has_any_api_key(&ps, &vec![Some(String::new()), None], &env(&[])));
    assert!(has_any_api_key(&ps, &vec![None, None], &env(&[("OPENAI_API_KEY", "sk-1")])));
    let plain = vec![provider("x", "plain")];
    assert!(has_any_api_key(&plain, &vec![None], &env(&[])));
}
