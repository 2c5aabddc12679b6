use vibe_lever::config_parser::write_alpha_settings;
use vibe_lever::document::table_get;
use vibe_lever::document::ConfigValue;
use vibe_lever::errors::AppError;
use vibe_lever::settings::SettingsService;
use vibe_lever::shell::ShellOutput;
use vibe_lever::tool::ToolStatus;
use vibe_lever::tool_cache_service::ToolCacheService;
use vibe_lever::tool_service::ToolService;
use vibe_lever::vendor::VendorInput;
use vibe_lever::vendor_service::VendorService;

const NOW: &str = "2024-01-01 00:00:00";

fn input(name: &str, base_url: &str, token: &str) -> VendorInput {
    VendorInput {
        name: name.to_string(),
        vendor_key: None,
        base_url: base_url.to_string(),
        token: token.to_string(),
        model: None,
        config_json: None,
    }
}

fn ok_out(stdout: &str) -> Option<ShellOutput> {
    Some(ShellOutput { success: true, stdout: stdout.to_string(), stderr: String::new() })
}

fn active_count(store: &VendorService, tool: &str) -> usize {
    store.get_all(tool).iter().filter(|v| v.is_active).count()
}

#[test]
fn at_most_one_active_per_tool() {
    let mut store = VendorService::new();
    let a = store.add("alpha-code", input("A", "https://a", "ta"), NOW);
    let b = store.add("alpha-code", input("B", "https://b", "tb"), NOW);
    let c = store.add("codex", input("C", "https://c", "tc"), NOW);
    store.activate("alpha-code", a.id);
    store.activate("codex", c.id);
    store.activate("alpha-code", b.id);
    store.activate("alpha-code", a.id);
    assert_eq!(active_count(&store, "alpha-code"), 1);
    assert_eq!(active_count(&store, "codex"), 1);
    assert!(store.get_by_id(a.id).unwrap().is_active);
    assert!(!store.get_by_id(b.id).unwrap().is_active);
}

#[test]
fn activation_stays_within_tool_scope() {
    let mut store = VendorService::new();
    let a = store.add("alpha-code", input("A", "https://a", "ta"), NOW);
    let c = store.add("codex", input("C", "https://c", "tc"), NOW);
    store.activate("codex", c.id);
    // activating a alpha-code profile id under the codex scope must
    // not make the alpha-code profile active, only deactivate codex's
    store.activate("codex", a.id);
    assert_eq!(active_count(&store, "codex"), 0);
    assert_eq!(active_count(&store, "alpha-code"), 0);
    assert!(!store.get_by_id(a.id).unwrap().is_active);
}

#[test]
fn activation_switches_profile_and_native_config() {
    let mut store = VendorService::new();
    let a = store.add("alpha-code", input("A", "https://x", "t1"), NOW);
    store.activate("alpha-code", a.id);
    let mut doc: Vec<(String, ConfigValue)> = Vec::new();
    let active = store.get_by_id(a.id).unwrap();
    assert!(active.is_active);
    write_alpha_settings(&mut doc, &active);
    let env = match table_get(&doc, "env") {
        Some(ConfigValue::Table(t)) => t,
        _ => panic!("no env table"),
    };
    assert_eq!(table_get(env, "ANTHROPIC_BASE_URL"), Some(&ConfigValue::Str("https://x".into())));
    assert_eq!(table_get(env, "ANTHROPIC_AUTH_TOKEN"), Some(&ConfigValue::Str("t1".into())));

    let b = store.add("alpha-code", input("B", "https://y", "t2"), NOW);
    store.activate("alpha-code", b.id);
    assert!(!store.get_by_id(a.id).unwrap().is_active);
    assert!(store.get_by_id(b.id).unwrap().is_active);
    let active = store.get_by_id(b.id).unwrap();
    write_alpha_settings(&mut doc, &active);
    let env = match table_get(&doc, "env") {
        Some(ConfigValue::Table(t)) => t,
        _ => panic!("no env table"),
    };
    assert_eq!(table_get(env, "ANTHROPIC_BASE_URL"), Some(&ConfigValue::Str("https://y".into())));
    assert_eq!(table_get(env, "ANTHROPIC_AUTH_TOKEN"), Some(&ConfigValue::Str("t2".into())));
}

#[test]
fn cache_miss_then_hit_without_second_probe() {
    let mut cache = ToolCacheService::new();
    // a miss asks the caller to probe
    assert_eq!(ToolService::check_status(&cache, "alpha-code").unwrap(), None);
    // one probe is recorded
    let recorded = ToolService::record_status(
        &mut cache,
        "alpha-code",
        ok_out("/usr/bin/alpha\n"),
        ok_out("1.2.3\n"),
        None,
        NOW,
    )
    .unwrap();
    assert!(recorded.installed);
    assert_eq!(recorded.version, Some("1.2.3".to_string()));
    // the next check hits the cache: same fields, no probe requested
    let hit = ToolService::check_status(&cache, "alpha-code").unwrap().unwrap();
    assert!(hit.installed);
    assert_eq!(hit.path, Some("/usr/bin/alpha".to_string()));
    assert_eq!(hit.version, Some("1.2.3".to_string()));
    assert_eq!(hit.install_method, None);
    assert!(!hit.running);
}

#[test]
fn successful_install_overwrites_stale_cache() {
    let mut cache = ToolCacheService::new();
    let stale = ToolStatus {
        installed: false,
        path: None,
        version: None,
        install_method: None,
        running: false,
    };
    cache.set("alpha-code", &stale, NOW);
    assert!(!ToolService::check_status(&cache, "alpha-code").unwrap().unwrap().installed);
    // after a successful install the fresh probe is recorded over the row
    ToolService::record_status(
        &mut cache,
        "alpha-code",
        ok_out("/usr/bin/alpha\n"),
        ok_out("1.2.3\n"),
        None,
        NOW,
    )
    .unwrap();
    let status = ToolService::check_status(&cache, "alpha-code").unwrap().unwrap();
    assert!(status.installed);
}

#[test]
fn unknown_tool_is_refused_before_cache_or_probe() {
    let mut cache = ToolCacheService::new();
    let e = ToolService::check_status(&cache, "alpha").unwrap_err();
    assert_eq!(e, AppError::UnknownTool { tool: "alpha".to_string() });
    let e = ToolService::record_status(&mut cache, "alpha", None, None, None, NOW).unwrap_err();
    assert_eq!(e, AppError::UnknownTool { tool: "alpha".to_string() });
    assert!(cache.entries.is_empty());
}

#[test]
fn cache_never_returns_live_fields() {
    let mut cache = ToolCacheService::new();
    let probed = ToolStatus {
        installed: true,
        path: Some("/p".to_string()),
        version: Some("1".to_string()),
        install_method: Some("npm".to_string()),
        running: true,
    };
    cache.set("codex", &probed, NOW);
    let read = cache.get("codex").unwrap();
    assert_eq!(read.install_method, None);
    assert!(!read.running);
    assert!(read.installed);
}

#[test]
fn uninstall_overwrites_cache_row() {
    let mut cache = ToolCacheService::new();
    let probed = ToolStatus {
        installed: true,
        path: Some("/p".to_string()),
        version: Some("1".to_string()),
        install_method: None,
        running: false,
    };
    cache.set("codex", &probed, NOW);
    ToolService::mark_uninstalled(&mut cache, "codex", NOW);
    let read = cache.get("codex").unwrap();
    assert!(!read.installed);
    assert_eq!(read.path, None);
    assert_eq!(read.version, None);
}

#[test]
fn failed_probe_degrades_fields() {
    let mut cache = ToolCacheService::new();
    let s = ToolService::record_status(&mut cache, "codex", None, None, None, NOW).unwrap();
    assert!(!s.installed);
    assert_eq!(s.path, None);
    assert_eq!(s.version, None);
    assert!(!s.running);
}

#[test]
fn store_add_get_update_delete() {
    let mut store = VendorService::new();
    let a = store.add("alpha-code", input("A", "https://a", "ta"), NOW);
    assert_eq!(a.id, 1);
    assert!(!a.is_active);
    assert_eq!(a.created_at, NOW);
    let e = store.get_by_id(99).unwrap_err();
    assert_eq!(e, AppError::ProfileNotFound { id: 99 });
    let updated = store
        .update(a.id, input("A2", "https://a2", "ta2"), "2024-02-02 00:00:00")
        .unwrap();
    assert_eq!(updated.name, "A2");
    assert_eq!(updated.base_url, "https://a2");
    assert_eq!(updated.created_at, NOW);
    assert_eq!(updated.updated_at, "2024-02-02 00:00:00");
    let e = store.update(99, input("X", "x", "x"), NOW).unwrap_err();
    assert_eq!(e, AppError::ProfileNotFound { id: 99 });
    store.delete(a.id);
    assert!(store.get_by_id(a.id).is_err());
    store.delete(a.id);
}

#[test]
fn store_lists_newest_first() {
    let mut store = VendorService::new();
    store.add("alpha-code", input("A", "https://a", "ta"), NOW);
    store.add("codex", input("C", "https://c", "tc"), NOW);
    store.add("alpha-code", input("B", "https://b", "tb"), NOW);
    let names: Vec<String> = store.get_all("alpha-code").into_iter().map(|v| v.name).collect();
    assert_eq!(names, vec!["B".to_string(), "A".to_string()]);
}

#[test]
fn settings_defaults_and_updates() {
    let mut svc = SettingsService::new();
    let s = svc.get_all();
    assert_eq!(s.theme, "light");
    assert_eq!(s.language, "zh");
    assert_eq!(s.last_tool, "alpha-code");
    svc.update("theme", "dark");
    svc.update("last_tool", "codex");
    svc.update("theme", "system");
    let s = svc.get_all();
    assert_eq!(s.theme, "system");
    assert_eq!(s.language, "zh");
    assert_eq!(s.last_tool, "codex");
    assert_eq!(svc.get("theme"), Some("system".to_string()));
    assert_eq!(svc.get("missing"), None);
}

#[test]
fn import_seeds_empty_store() {
    let mut store = VendorService::new();
    let doc: Vec<(String, ConfigValue)> = vec![(
        "env".to_string(),
        ConfigValue::Table(vec![
            ("ANTHROPIC_AUTH_TOKEN".to_string(), ConfigValue::Str("tok".to_string())),
            ("ANTHROPIC_BASE_URL".to_string(), ConfigValue::Str("https://imported".to_string())),
        ]),
    )];
    let id = store.import_alpha_settings(Some(&doc), NOW).expect("import must seed");
    let v = store.get_by_id(id).unwrap();
    assert_eq!(v.token, "tok");
    assert_eq!(v.base_url, "https://imported");
    assert!(v.is_active);
    assert_eq!(active_count(&store, "alpha-code"), 1);
}

#[test]
fn import_skips_populated_store() {
    let mut store = VendorService::new();
    store.add("alpha-code", input("A", "https://a", "ta"), NOW);
    let doc: Vec<(String, ConfigValue)> = vec![(
        "env".to_string(),
        ConfigValue::Table(vec![(
            "ANTHROPIC_AUTH_TOKEN".to_string(),
            ConfigValue::Str("tok".to_string()),
        )]),
    )];
    assert!(store.import_alpha_settings(Some(&doc), NOW).is_none());
    assert_eq!(store.get_all("alpha-code").len(), 1);
    assert!(store.import_alpha_settings(None, NOW).is_none());
}
