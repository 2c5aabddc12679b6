use vibe_lever::errors::AppError;
use vibe_lever::install_stream::InstallEvent;
use vibe_lever::install_stream::InstallStream;
use vibe_lever::platform::get_platform_info;
use vibe_lever::platform::Platform;
use vibe_lever::shell::run_npm;
use vibe_lever::shell::which;
use vibe_lever::shell::which_command;
use vibe_lever::shell::CommandSpec;
use vibe_lever::shell::ShellOutput;
use vibe_lever::tool_service::install_result;
use vibe_lever::tool_service::NodeService;
use vibe_lever::tool_service::ToolService;

fn cmd(program: &str, args: &[&str]) -> CommandSpec {
    CommandSpec {
        program: program.to_string(),
        args: args.iter().map(|s| s.to_string()).collect(),
    }
}

fn out(success: bool, stdout: &str, stderr: &str) -> ShellOutput {
    ShellOutput { success, stdout: stdout.to_string(), stderr: stderr.to_string() }
}

#[test]
fn plan_npm_linux() {
    let r = ToolService::install("alpha-code", "npm", Platform::Linux).unwrap();
    assert_eq!(r, cmd("npm", &["install", "-g", "@anthropic-ai/alpha-code"]));
}

#[test]
fn plan_npm_windows_goes_through_cmd() {
    let r = ToolService::install("codex", "npm", Platform::Windows).unwrap();
    assert_eq!(r, cmd("cmd", &["/c", "npm", "install", "-g", "@openai/codex"]));
}

#[test]
fn plan_native_linux() {
    let r = ToolService::install("alpha-code", "native", Platform::Linux).unwrap();
    assert_eq!(r, cmd("bash", &["-c", "curl -fsSL https://alpha.ai/install.sh | bash"]));
}

#[test]
fn plan_native_windows() {
    let r = ToolService::install("alpha-code", "native", Platform::Windows).unwrap();
    assert_eq!(r, cmd("powershell", &["-Command", "irm https://alpha.ai/install.ps1 | iex"]));
}

#[test]
fn plan_brew() {
    let r = ToolService::install("alpha-code", "brew", Platform::Macos).unwrap();
    assert_eq!(r, cmd("brew", &["install", "alpha"]));
}

#[test]
fn plan_unknown_method_refused() {
    let e = ToolService::install("alpha", "unknown-method", Platform::Linux).unwrap_err();
    assert_eq!(
        e,
        AppError::UnsupportedCombination {
            tool: "alpha".to_string(),
            method: "unknown-method".to_string()
        }
    );
}

#[test]
fn plan_npm_unknown_tool_refused() {
    let e = ToolService::install("alpha", "npm", Platform::Linux).unwrap_err();
    assert!(matches!(e, AppError::UnsupportedCombination { .. }));
}

#[test]
fn plan_brew_for_codex_refused() {
    let e = ToolService::install("codex", "brew", Platform::Macos).unwrap_err();
    assert!(matches!(e, AppError::UnsupportedCombination { .. }));
}

#[test]
fn plan_is_deterministic() {
    let a = ToolService::install("alpha-code", "npm", Platform::Macos).unwrap();
    let b = ToolService::install("alpha-code", "npm", Platform::Macos).unwrap();
    assert_eq!(a, b);
}

#[test]
fn refused_plan_never_opens_a_stream() {
    let r = InstallStream::start("alpha", "unknown-method", Platform::Linux);
    match r {
        Err(AppError::UnsupportedCombination { tool, method }) => {
            assert_eq!(tool, "alpha");
            assert_eq!(method, "unknown-method");
        }
        _ => panic!("a refused plan must surface as UnsupportedCombination"),
    }
}

#[test]
fn stream_delivers_lines_then_one_terminal_signal() {
    let mut s = InstallStream::start("alpha-code", "npm", Platform::Linux).unwrap();
    assert!(s.events.is_empty());
    s.on_line("first".to_string());
    s.on_line("second".to_string());
    s.finish(true);
    assert!(s.finished);
    assert_eq!(
        s.events,
        vec![
            InstallEvent::Line("first".to_string()),
            InstallEvent::Line("second".to_string()),
            InstallEvent::Done(true),
        ]
    );
}

#[test]
fn uninstall_plan_linux() {
    let r = ToolService::uninstall("codex", Platform::Linux).unwrap();
    assert_eq!(r, cmd("npm", &["uninstall", "-g", "@openai/codex"]));
}

#[test]
fn uninstall_plan_windows() {
    let r = ToolService::uninstall("alpha-code", Platform::Windows).unwrap();
    assert_eq!(r, cmd("cmd", &["/c", "npm", "uninstall", "-g", "@anthropic-ai/alpha-code"]));
}

#[test]
fn uninstall_unknown_tool_refused() {
    let e = ToolService::uninstall("alpha", Platform::Linux).unwrap_err();
    assert_eq!(e, AppError::UnknownTool { tool: "alpha".to_string() });
}

#[test]
fn uninstall_outcome_failure_carries_stderr() {
    assert!(ToolService::uninstall_outcome(&out(true, "", "")).is_ok());
    let e = ToolService::uninstall_outcome(&out(false, "", "boom")).unwrap_err();
    assert_eq!(e, AppError::ShellCommand { message: "boom".to_string() });
}

#[test]
fn kill_plan_windows_targets_image() {
    let r = ToolService::kill_process("alpha-code", Platform::Windows).unwrap();
    assert_eq!(r, cmd("taskkill", &["/F", "/IM", "alpha.exe"]));
}

#[test]
fn kill_plan_unix_matches_name() {
    let r = ToolService::kill_process("codex", Platform::Linux).unwrap();
    assert_eq!(r, cmd("pkill", &["-f", "codex"]));
}

#[test]
fn kill_unknown_tool_refused() {
    let e = ToolService::kill_process("alpha", Platform::Linux).unwrap_err();
    assert_eq!(e, AppError::UnknownTool { tool: "alpha".to_string() });
}

#[test]
fn kill_outcome_no_such_process_is_ok() {
    assert!(ToolService::kill_outcome(&out(false, "", "process not found")).is_ok());
    assert!(ToolService::kill_outcome(&out(true, "", "")).is_ok());
    let e = ToolService::kill_outcome(&out(false, "", "denied")).unwrap_err();
    assert_eq!(e, AppError::ShellCommand { message: "denied".to_string() });
}

#[test]
fn running_probe_windows_filters_image() {
    let r = ToolService::check_running("alpha-code", Platform::Windows).unwrap();
    assert_eq!(r, cmd("tasklist", &["/FI", "IMAGENAME eq alpha.exe"]));
}

#[test]
fn running_probe_unix_exact_name() {
    let r = ToolService::check_running("alpha-code", Platform::Linux).unwrap();
    assert_eq!(r, cmd("pgrep", &["-x", "alpha"]));
}

#[test]
fn running_probe_unknown_tool_none() {
    assert!(ToolService::check_running("alpha", Platform::Linux).is_none());
}

#[test]
fn running_from_output_reads_listing() {
    let listing = out(true, "alpha.exe   1234 Console\n", "");
    assert!(ToolService::running_from_output("alpha-code", &listing));
    let empty = out(true, "INFO: No tasks are running\n", "");
    assert!(!ToolService::running_from_output("alpha-code", &empty));
    let failed = out(false, "alpha", "");
    assert!(!ToolService::running_from_output("alpha-code", &failed));
    assert!(!ToolService::running_from_output("alpha", &listing));
}

#[test]
fn which_trims_resolved_path() {
    let r = which(Some(&out(true, "/usr/local/bin/alpha\n", "")));
    assert_eq!(r, Some("/usr/local/bin/alpha".to_string()));
}

#[test]
fn which_misses_resolve_to_nothing() {
    assert_eq!(which(Some(&out(false, "", "not found"))), None);
    assert_eq!(which(None), None);
}

#[test]
fn which_command_per_platform() {
    assert_eq!(which_command(Platform::Windows, "alpha"), cmd("where", &["alpha"]));
    assert_eq!(which_command(Platform::Linux, "alpha"), cmd("which", &["alpha"]));
}

#[test]
fn run_npm_wraps_on_windows_only() {
    let args = vec!["install".to_string(), "-g".to_string(), "left-pad".to_string()];
    assert_eq!(
        run_npm(Platform::Windows, args.clone()),
        cmd("cmd", &["/c", "npm", "install", "-g", "left-pad"])
    );
    assert_eq!(run_npm(Platform::Macos, args), cmd("npm", &["install", "-g", "left-pad"]));
}

#[test]
fn install_result_reports_failure_text() {
    let r = install_result(&out(false, "partial", "permission denied"), "install succeeded");
    assert!(!r.success);
    assert_eq!(r.message, "permission denied");
    assert_eq!(r.output, Some("partial\npermission denied".to_string()));
}

#[test]
fn install_result_reports_success_message() {
    let r = install_result(&out(true, "done", ""), "install succeeded");
    assert!(r.success);
    assert_eq!(r.message, "install succeeded");
    assert_eq!(r.output, Some("done\n".to_string()));
}

#[test]
fn node_status_assembles_versions() {
    let s = NodeService::check_status(
        Platform::Linux,
        Some(&out(true, "v20.11.0\n", "")),
        Some(&out(true, "0.40.1\n", "")),
        None,
    );
    assert!(s.node_installed);
    assert_eq!(s.node_version, Some("v20.11.0".to_string()));
    assert!(s.nvm_installed);
    assert_eq!(s.nvm_version, Some("0.40.1".to_string()));
}

#[test]
fn node_status_windows_uses_path_probe() {
    let s = NodeService::check_status(
        Platform::Windows,
        Some(&out(false, "", "no node")),
        None,
        Some("C:\\nvm\\nvm.exe".to_string()),
    );
    assert!(!s.node_installed);
    assert_eq!(s.node_version, None);
    assert!(s.nvm_installed);
    assert_eq!(s.nvm_version, Some(String::new()));
}

#[test]
fn node_install_plans() {
    assert_eq!(NodeService::install_node_lts(Platform::Windows), cmd("nvm", &["install", "lts"]));
    assert_eq!(
        NodeService::install_node_lts(Platform::Linux),
        cmd("bash", &["-c", "source ~/.nvm/nvm.sh && nvm install --lts"])
    );
    assert_eq!(NodeService::install_nvm(Platform::Linux).program, "bash");
    assert_eq!(NodeService::install_nvm(Platform::Windows).program, "powershell");
}

#[test]
fn platform_info_names() {
    let p = get_platform_info("macos", "aarch64");
    assert_eq!(p.platform, "macos");
    assert_eq!(p.platform_name, "macOS");
    assert_eq!(p.arch, "aarch64");
    assert_eq!(get_platform_info("windows", "x86_64").platform_name, "Windows");
    assert_eq!(get_platform_info("linux", "x86_64").platform_name, "Linux");
    assert_eq!(get_platform_info("freebsd", "x86_64").platform_name, "Unknown");
}

#[test]
fn platform_from_os() {
    assert_eq!(Platform::from_os("windows"), Platform::Windows);
    assert_eq!(Platform::from_os("macos"), Platform::Macos);
    assert_eq!(Platform::from_os("linux"), Platform::Linux);
    assert_eq!(Platform::from_os("freebsd"), Platform::Other);
}

#[test]
fn error_messages_name_inputs() {
    let e = AppError::UnknownTool { tool: "alpha".to_string() };
    assert_eq!(e.message(), "unknown tool: alpha");
    let e = AppError::UnsupportedCombination {
        tool: "alpha".to_string(),
        method: "zip".to_string(),
    };
    assert_eq!(e.message(), "unsupported install: alpha via zip");
    let e = AppError::ShellCommand { message: "spawn failed".to_string() };
    assert_eq!(e.message(), "command failed: spawn failed");
    let e = AppError::ProfileNotFound { id: 7 };
    assert_eq!(e.message(), "profile not found");
}
