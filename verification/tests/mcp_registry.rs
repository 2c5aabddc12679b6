use vibe_lever::document::table_get;
use vibe_lever::document::ConfigValue;
use vibe_lever::mcp::McpServerInput;
use vibe_lever::mcp::McpService;

type Doc = Vec<(String, ConfigValue)>;

fn entry(k: &str, v: ConfigValue) -> (String, ConfigValue) {
    (k.to_string(), v)
}

fn s(v: &str) -> ConfigValue {
    ConfigValue::Str(v.to_string())
}

fn registry(entries: Vec<(String, ConfigValue)>) -> Doc {
    vec![entry("mcpServers", ConfigValue::Table(entries))]
}

fn basic_input(name: &str) -> McpServerInput {
    McpServerInput {
        name: name.to_string(),
        server_type: "stdio".to_string(),
        command: Some("run-server".to_string()),
        args: Some(vec!["--port".to_string(), "8080".to_string()]),
        url: None,
        env: Some(vec![("KEY".to_string(), "VALUE".to_string())]),
        headers: Some(vec![("Auth".to_string(), "Bearer".to_string())]),
    }
}

#[test]
fn registry_read_extracts_fields() {
    let doc = registry(vec![
        entry(
            "alpha",
            ConfigValue::Table(vec![
                entry("type", s("http")),
                entry("url", s("https://mcp.example")),
            ]),
        ),
        entry(
            "beta",
            ConfigValue::Table(vec![
                entry("command", s("beta-bin")),
                entry(
                    "args",
                    ConfigValue::Arr(vec![s("x"), ConfigValue::Int(5), s("y")]),
                ),
                entry("env", ConfigValue::Table(vec![entry("K", s("V"))])),
                entry(
                    "headers",
                    ConfigValue::Table(vec![entry("H", ConfigValue::Int(1))]),
                ),
            ]),
        ),
    ]);
    let servers = McpService::get_all(&doc);
    assert_eq!(servers.len(), 2);
    let alpha = &servers[0];
    assert_eq!(alpha.name, "alpha");
    assert_eq!(alpha.server_type, "http");
    assert_eq!(alpha.url, Some("https://mcp.example".to_string()));
    assert_eq!(alpha.command, None);
    let beta = &servers[1];
    assert_eq!(beta.server_type, "stdio");
    assert_eq!(beta.command, Some("beta-bin".to_string()));
    // only the string elements of the argument array are kept
    assert_eq!(beta.args, Some(vec!["x".to_string(), "y".to_string()]));
    assert_eq!(beta.env, Some(vec![("K".to_string(), "V".to_string())]));
    // a map with a non-string value is not an environment map
    assert_eq!(beta.headers, None);
}

#[test]
fn registry_read_without_table_is_empty() {
    let empty: Doc = Vec::new();
    assert!(McpService::get_all(&empty).is_empty());
    let scalar: Doc = vec![entry("mcpServers", s("oops"))];
    assert!(McpService::get_all(&scalar).is_empty());
}

#[test]
fn register_then_read_back() {
    let mut doc: Doc = Vec::new();
    let returned = McpService::add(&mut doc, basic_input("mine"));
    // the returned record carries everything, headers included
    assert_eq!(returned.headers, Some(vec![("Auth".to_string(), "Bearer".to_string())]));
    let servers = McpService::get_all(&doc);
    assert_eq!(servers.len(), 1);
    let mine = &servers[0];
    assert_eq!(mine.name, "mine");
    assert_eq!(mine.server_type, "stdio");
    assert_eq!(mine.command, Some("run-server".to_string()));
    assert_eq!(mine.args, Some(vec!["--port".to_string(), "8080".to_string()]));
    assert_eq!(mine.env, Some(vec![("KEY".to_string(), "VALUE".to_string())]));
    // headers are never written into the document
    assert_eq!(mine.headers, None);
}

#[test]
fn register_omits_default_transport_type() {
    let mut doc: Doc = Vec::new();
    McpService::add(&mut doc, basic_input("mine"));
    let servers = match table_get(&doc, "mcpServers") {
        Some(ConfigValue::Table(t)) => t,
        _ => panic!("no registry table"),
    };
    let mine = match table_get(servers, "mine") {
        Some(ConfigValue::Table(t)) => t,
        _ => panic!("no entry"),
    };
    assert_eq!(table_get(mine, "type"), None);

    let mut input = basic_input("web");
    input.server_type = "sse".to_string();
    McpService::add(&mut doc, input);
    let servers = match table_get(&doc, "mcpServers") {
        Some(ConfigValue::Table(t)) => t,
        _ => panic!("no registry table"),
    };
    let web = match table_get(servers, "web") {
        Some(ConfigValue::Table(t)) => t,
        _ => panic!("no entry"),
    };
    assert_eq!(table_get(web, "type"), Some(&s("sse")));
}

#[test]
fn register_preserves_other_entries() {
    let mut doc: Doc = vec![
        entry("unrelated", s("keep")),
        entry(
            "mcpServers",
            ConfigValue::Table(vec![entry("old", ConfigValue::Table(vec![entry("url", s("u"))]))]),
        ),
    ];
    McpService::add(&mut doc, basic_input("new"));
    assert_eq!(table_get(&doc, "unrelated"), Some(&s("keep")));
    let servers = McpService::get_all(&doc);
    let names: Vec<String> = servers.into_iter().map(|x| x.name).collect();
    assert_eq!(names, vec!["old".to_string(), "new".to_string()]);
}

#[test]
fn delete_removes_entry() {
    let mut doc: Doc = Vec::new();
    McpService::add(&mut doc, basic_input("one"));
    McpService::add(&mut doc, basic_input("two"));
    McpService::delete(&mut doc, "one");
    let names: Vec<String> = McpService::get_all(&doc).into_iter().map(|x| x.name).collect();
    assert_eq!(names, vec!["two".to_string()]);
    McpService::delete(&mut doc, "absent");
    assert_eq!(McpService::get_all(&doc).len(), 1);
}

#[test]
fn delete_without_registry_is_a_noop() {
    let mut doc: Doc = vec![entry("keep", s("v"))];
    McpService::delete(&mut doc, "anything");
    assert_eq!(doc, vec![entry("keep", s("v"))]);
}
