use vibe_lever::config_parser::read_alpha_settings;
use vibe_lever::config_parser::write_alpha_settings;
use vibe_lever::config_parser::write_codex_config;
use vibe_lever::document::duplicate_entries;
use vibe_lever::document::table_get;
use vibe_lever::document::ConfigValue;
use vibe_lever::vendor::Vendor;

type Doc = Vec<(String, ConfigValue)>;

fn vendor(
    tool: &str,
    name: &str,
    base_url: &str,
    token: &str,
    vendor_key: Option<&str>,
    model: Option<&str>,
    config_json: Option<&str>,
) -> Vendor {
    Vendor {
        id: 1,
        tool: tool.to_string(),
        name: name.to_string(),
        vendor_key: vendor_key.map(|s| s.to_string()),
        base_url: base_url.to_string(),
        token: token.to_string(),
        model: model.map(|s| s.to_string()),
        config_json: config_json.map(|s| s.to_string()),
        is_active: true,
        created_at: "2024-01-01 00:00:00".to_string(),
        updated_at: "2024-01-01 00:00:00".to_string(),
    }
}

fn entry(k: &str, v: ConfigValue) -> (String, ConfigValue) {
    (k.to_string(), v)
}

fn s(v: &str) -> ConfigValue {
    ConfigValue::Str(v.to_string())
}

fn env_table<'a>(doc: &'a Doc) -> &'a Doc {
    match table_get(doc, "env") {
        Some(ConfigValue::Table(t)) => t,
        _ => panic!("settings document has no env table"),
    }
}

#[test]
fn alpha_sync_writes_credentials() {
    let mut doc: Doc = Vec::new();
    let v = vendor("alpha-code", "A", "https://x", "t1", None, None, None);
    write_alpha_settings(&mut doc, &v);
    let env = env_table(&doc);
    assert_eq!(table_get(env, "ANTHROPIC_AUTH_TOKEN"), Some(&s("t1")));
    assert_eq!(table_get(env, "ANTHROPIC_BASE_URL"), Some(&s("https://x")));
    assert_eq!(
        table_get(env, "ALPHA_CODE_DISABLE_NONESSENTIAL_TRAFFIC"),
        Some(&ConfigValue::Int(1))
    );
    assert_eq!(table_get(env, "ANTHROPIC_MODEL"), None);
}

#[test]
fn alpha_sync_preserves_unrelated_keys() {
    let mut doc: Doc = vec![
        entry("permissions", s("keep-me")),
        entry(
            "env",
            ConfigValue::Table(vec![entry("MY_OWN_FLAG", s("kept"))]),
        ),
    ];
    let v = vendor("alpha-code", "A", "https://x", "t1", None, None, None);
    write_alpha_settings(&mut doc, &v);
    assert_eq!(table_get(&doc, "permissions"), Some(&s("keep-me")));
    let env = env_table(&doc);
    assert_eq!(table_get(env, "MY_OWN_FLAG"), Some(&s("kept")));
    assert_eq!(table_get(env, "ANTHROPIC_AUTH_TOKEN"), Some(&s("t1")));
}

#[test]
fn alpha_sync_is_idempotent() {
    let mut doc: Doc = vec![
        entry("theme", s("dark")),
        entry("env", ConfigValue::Table(vec![entry("KEEP", s("x"))])),
    ];
    let v = vendor(
        "alpha-code",
        "A",
        "https://x",
        "t1",
        None,
        Some("alpha-3"),
        Some(r#"{"sonnetModel":"s1"}"#),
    );
    write_alpha_settings(&mut doc, &v);
    let once = duplicate_entries(&doc);
    write_alpha_settings(&mut doc, &v);
    assert_eq!(doc, once);
}

#[test]
fn alpha_sync_ignores_malformed_extra_options() {
    let with_bad = vendor(
        "alpha-code",
        "A",
        "https://x",
        "t1",
        None,
        Some("m"),
        Some("{this is not json"),
    );
    let without = vendor("alpha-code", "A", "https://x", "t1", None, Some("m"), None);
    let mut d1: Doc = vec![entry("keep", s("v"))];
    let mut d2: Doc = vec![entry("keep", s("v"))];
    write_alpha_settings(&mut d1, &with_bad);
    write_alpha_settings(&mut d2, &without);
    assert_eq!(d1, d2);
}

#[test]
fn alpha_sync_maps_extra_option_models() {
    let mut doc: Doc = Vec::new();
    let v = vendor(
        "alpha-code",
        "A",
        "https://x",
        "t1",
        None,
        Some("alpha-3"),
        Some(r#"{"sonnetModel":"s1","haikuModel":"h1","opusModel":"o1","ignored":"z"}"#),
    );
    write_alpha_settings(&mut doc, &v);
    let env = env_table(&doc);
    assert_eq!(table_get(env, "ANTHROPIC_DEFAULT_SONNET_MODEL"), Some(&s("s1")));
    assert_eq!(table_get(env, "ANTHROPIC_DEFAULT_HAIKU_MODEL"), Some(&s("h1")));
    assert_eq!(table_get(env, "ANTHROPIC_DEFAULT_OPUS_MODEL"), Some(&s("o1")));
    assert_eq!(table_get(env, "ANTHROPIC_MODEL"), Some(&s("alpha-3")));
    assert_eq!(table_get(env, "ignored"), None);
}

#[test]
fn alpha_sync_leaves_non_table_env_alone() {
    let mut doc: Doc = vec![entry("env", s("scalar"))];
    let before = duplicate_entries(&doc);
    let v = vendor("alpha-code", "A", "https://x", "t1", None, None, None);
    write_alpha_settings(&mut doc, &v);
    assert_eq!(doc, before);
}

#[test]
fn codex_sync_writes_selection_and_provider() {
    let mut doc: Doc = Vec::new();
    let v = vendor(
        "codex",
        "My Provider",
        "https://api.example",
        "sk-1",
        Some("prov"),
        None,
        Some(r#"{"model":"m1","reasoningEffort":"low"}"#),
    );
    let auth = write_codex_config(&mut doc, &v);
    assert_eq!(table_get(&doc, "model_provider"), Some(&s("prov")));
    assert_eq!(table_get(&doc, "model"), Some(&s("m1")));
    assert_eq!(table_get(&doc, "model_reasoning_effort"), Some(&s("low")));
    assert_eq!(table_get(&doc, "disable_response_storage"), Some(&ConfigValue::Bool(true)));
    let providers = match table_get(&doc, "model_providers") {
        Some(ConfigValue::Table(t)) => t,
        _ => panic!("no provider table"),
    };
    let prov = match table_get(providers, "prov") {
        Some(ConfigValue::Table(t)) => t,
        _ => panic!("no provider entry"),
    };
    assert_eq!(table_get(prov, "name"), Some(&s("My Provider")));
    assert_eq!(table_get(prov, "base_url"), Some(&s("https://api.example")));
    assert_eq!(table_get(prov, "wire_api"), Some(&s("openai")));
    assert_eq!(table_get(prov, "requires_openai_auth"), Some(&ConfigValue::Bool(true)));
    assert_eq!(auth, vec![entry("OPENAI_API_KEY", s("sk-1"))]);
}

#[test]
fn codex_sync_defaults() {
    let mut doc: Doc = Vec::new();
    let v = vendor("codex", "B", "https://api", "sk-2", None, None, None);
    write_codex_config(&mut doc, &v);
    assert_eq!(table_get(&doc, "model_provider"), Some(&s("custom")));
    assert_eq!(table_get(&doc, "model"), Some(&s("gpt-4o")));
    assert_eq!(table_get(&doc, "model_reasoning_effort"), Some(&s("high")));
}

#[test]
fn codex_sync_profile_model_without_override() {
    let mut doc: Doc = Vec::new();
    let v = vendor("codex", "B", "https://api", "sk-2", None, Some("o3"), None);
    write_codex_config(&mut doc, &v);
    assert_eq!(table_get(&doc, "model"), Some(&s("o3")));
}

#[test]
fn codex_sync_preserves_other_providers() {
    let other = ConfigValue::Table(vec![entry("name", s("Other"))]);
    let mut doc: Doc = vec![
        entry("model_providers", ConfigValue::Table(vec![entry("other", other)])),
        entry("sandbox_mode", s("strict")),
    ];
    let v = vendor("codex", "B", "https://api", "sk-2", Some("mine"), None, None);
    write_codex_config(&mut doc, &v);
    assert_eq!(table_get(&doc, "sandbox_mode"), Some(&s("strict")));
    let providers = match table_get(&doc, "model_providers") {
        Some(ConfigValue::Table(t)) => t,
        _ => panic!("no provider table"),
    };
    let other = match table_get(providers, "other") {
        Some(ConfigValue::Table(t)) => t,
        _ => panic!("other provider lost"),
    };
    assert_eq!(table_get(other, "name"), Some(&s("Other")));
    assert!(table_get(providers, "mine").is_some());
}

#[test]
fn codex_sync_is_idempotent() {
    let mut doc: Doc = vec![entry("sandbox_mode", s("strict"))];
    let v = vendor(
        "codex",
        "B",
        "https://api",
        "sk-2",
        Some("mine"),
        Some("o3"),
        Some(r#"{"reasoningEffort":"medium"}"#),
    );
    write_codex_config(&mut doc, &v);
    let once = duplicate_entries(&doc);
    write_codex_config(&mut doc, &v);
    assert_eq!(doc, once);
}

#[test]
fn read_alpha_settings_roundtrip() {
    let mut doc: Doc = Vec::new();
    let v = vendor("alpha-code", "A", "https://x", "t1", None, Some("alpha-3"), None);
    write_alpha_settings(&mut doc, &v);
    let input = read_alpha_settings(Some(&doc)).expect("credentials must be read back");
    assert_eq!(input.token, "t1");
    assert_eq!(input.base_url, "https://x");
    assert_eq!(input.model, Some("alpha-3".to_string()));
    assert_eq!(input.name, "Imported configuration");
    assert_eq!(input.vendor_key, None);
    assert_eq!(input.config_json, None);
}

#[test]
fn read_alpha_settings_empty_cases() {
    assert!(read_alpha_settings(None).is_none());
    let empty: Doc = Vec::new();
    assert!(read_alpha_settings(Some(&empty)).is_none());
    let blank: Doc = vec![entry(
        "env",
        ConfigValue::Table(vec![
            entry("ANTHROPIC_AUTH_TOKEN", s("")),
            entry("ANTHROPIC_BASE_URL", s("")),
        ]),
    )];
    assert!(read_alpha_settings(Some(&blank)).is_none());
}
