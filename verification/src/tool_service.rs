//! The tool lifecycle service: plans the platform-specific commands
//! that install, uninstall, probe and kill the managed tools, and
//! interprets the captured outcomes. Planning is a pure function of
//! (tool, method, platform): a pair outside the enumerated table fails
//! before any command exists to run. The caller runs the planned
//! command and hands the outcome back to the interpreting functions.

use vstd::prelude::*;
use vstd::string::StringExecFns;

use crate::errors::AppError;
use crate::errors::ErrorModel;
use crate::platform::Platform;
use crate::shell::args_view;
use crate::shell::cmd2;
use crate::shell::cmd2s;
use crate::shell::cmd3;
use crate::shell::npm_invocation;
use crate::shell::opt_output_view;
use crate::shell::run_npm;
use crate::shell::which_result;
use crate::shell::CommandModel;
use crate::shell::CommandSpec;
use crate::shell::ShellOutput;
use crate::shell::ShellOutputModel;
use crate::text::opt_string_view;
use crate::text::contains_str;
use crate::text::text_contains;
use crate::text::trim_view;
use crate::tool::InstallResult;
use crate::tool::InstallResultModel;
use crate::tool::NodeStatus;
use crate::tool::NodeStatusModel;
use crate::tool::ToolStatus;
use crate::tool::ToolStatusModel;
use crate::tool_cache_service::entry_of_status;
use crate::tool_cache_service::status_of_entry;
use crate::tool_cache_service::CacheEntryModel;
use crate::tool_cache_service::ToolCacheService;
use crate::shell::which;
use crate::text::str_eq;
use crate::text::trim_str;

verus! {

/// The tool identifiers the library manages.
pub open spec fn known_tool(t: Seq<char>) -> bool {
    t == "alpha-code"@ || t == "codex"@
}

/// The binary a managed tool installs under; meaningful for known
/// tools only.
pub open spec fn binary_name(t: Seq<char>) -> Seq<char> {
    if t == "alpha-code"@ {
        "alpha"@
    } else {
        "codex"@
    }
}

/// The package a managed tool is published as; meaningful for known
/// tools only.
pub open spec fn npm_package(t: Seq<char>) -> Seq<char> {
    if t == "alpha-code"@ {
        "@anthropic-ai/alpha-code"@
    } else {
        "@openai/codex"@
    }
}

/// The binary behind a tool identifier, or nothing for an unknown one.
fn tool_binary(tool: &str) -> (r: Option<&'static str>)
    ensures
        match r {
            Some(b) => known_tool(tool@) && b@ == binary_name(tool@),
            None => !known_tool(tool@),
        },
{
    if str_eq(tool, "alpha-code") {
        Some("alpha")
    } else if str_eq(tool, "codex") {
        Some("codex")
    } else {
        None
    }
}

/// The install command for (tool, method) on `platform`, or the error
/// refusing the pair. The table is closed: the native script installer
/// and the brew package exist for alpha-code alone, the package
/// manager covers both known tools, and everything else is refused
/// with both names in the error, before any command exists to run.
pub open spec fn install_plan(tool: Seq<char>, method: Seq<char>, platform: Platform) -> Result<
    CommandModel,
    ErrorModel,
> {
    if tool == "alpha-code"@ && method == "native"@ {
        if platform is Windows {
            Ok(
                CommandModel {
                    program: "powershell"@,
                    args: seq!["-Command"@, "irm https://alpha.ai/install.ps1 | iex"@],
                },
            )
        } else {
            Ok(
                CommandModel {
                    program: "bash"@,
                    args: seq!["-c"@, "curl -fsSL https://alpha.ai/install.sh | bash"@],
                },
            )
        }
    } else if method == "npm"@ {
        if known_tool(tool) {
            Ok(npm_invocation(platform, seq!["install"@, "-g"@, npm_package(tool)]))
        } else {
            Err(ErrorModel::UnsupportedCombination { tool, method })
        }
    } else if tool == "alpha-code"@ && method == "brew"@ {
        Ok(CommandModel { program: "brew"@, args: seq!["install"@, "alpha"@] })
    } else {
        Err(ErrorModel::UnsupportedCombination { tool, method })
    }
}

/// The uninstall command for `tool` on `platform`: the package manager
/// removal of its package, or the error naming an unknown tool.
pub open spec fn uninstall_plan(tool: Seq<char>, platform: Platform) -> Result<
    CommandModel,
    ErrorModel,
> {
    if known_tool(tool) {
        Ok(npm_invocation(platform, seq!["uninstall"@, "-g"@, npm_package(tool)]))
    } else {
        Err(ErrorModel::UnknownTool { tool })
    }
}

/// The process-listing probe for `tool` on `platform`: an image-name
/// filter on Windows, an exact-name process lookup elsewhere; nothing
/// for an unknown tool, which is simply reported as not running.
pub open spec fn running_probe(tool: Seq<char>, platform: Platform) -> Option<CommandModel> {
    if known_tool(tool) {
        if platform is Windows {
            Some(
                CommandModel {
                    program: "tasklist"@,
                    args: seq!["/FI"@, "IMAGENAME eq "@ + binary_name(tool) + ".exe"@],
                },
            )
        } else {
            Some(CommandModel { program: "pgrep"@, args: seq!["-x"@, binary_name(tool)] })
        }
    } else {
        None
    }
}

/// The kill command for `tool` on `platform`, or the error naming an
/// unknown tool.
pub open spec fn kill_plan(tool: Seq<char>, platform: Platform) -> Result<
    CommandModel,
    ErrorModel,
> {
    if known_tool(tool) {
        if platform is Windows {
            Ok(
                CommandModel {
                    program: "taskkill"@,
                    args: seq!["/F"@, "/IM"@, binary_name(tool) + ".exe"@],
                },
            )
        } else {
            Ok(CommandModel { program: "pkill"@, args: seq!["-f"@, binary_name(tool)] })
        }
    } else {
        Err(ErrorModel::UnknownTool { tool })
    }
}

/// What a probe's outcome says the tool's version is: the trimmed
/// output of a successful version query, nothing otherwise.
pub open spec fn version_of(o: Option<ShellOutputModel>) -> Option<Seq<char>> {
    match o {
        Some(x) => if x.success {
            Some(trim_view(x.stdout))
        } else {
            None
        },
        None => None,
    }
}

/// Whether a process listing shows the tool running: the probe
/// succeeded and its output names the binary.
pub open spec fn running_result(tool: Seq<char>, o: ShellOutputModel) -> bool {
    o.success && text_contains(o.stdout, binary_name(tool))
}

/// The status a full probe assembles: the resolved path decides
/// installedness, the version is read only for an installed tool, and
/// a failed or missing running probe degrades to not running.
pub open spec fn probed_status(
    tool: Seq<char>,
    which_out: Option<ShellOutputModel>,
    version_out: Option<ShellOutputModel>,
    running_out: Option<ShellOutputModel>,
) -> ToolStatusModel {
    let path = which_result(which_out);
    ToolStatusModel {
        installed: path is Some,
        path,
        version: if path is Some {
            version_of(version_out)
        } else {
            None
        },
        install_method: None,
        running: match running_out {
            Some(o) => running_result(tool, o),
            None => false,
        },
    }
}

/// The outcome record of one install action: the captured output in
/// full, and the captured error text as the message when the command
/// reported failure.
pub open spec fn install_outcome(o: ShellOutputModel, success_message: Seq<char>) -> InstallResultModel {
    InstallResultModel {
        success: o.success,
        message: if o.success {
            success_message
        } else {
            o.stderr
        },
        output: Some(o.stdout + "\n"@ + o.stderr),
    }
}

/// Builds the outcome record of an install action, as
/// `install_outcome` describes it.
pub fn install_result(output: &ShellOutput, success_message: &str) -> (r: InstallResult)
    ensures
        r@ == install_outcome(output@, success_message@),
{
    let message: String = if output.success {
        success_message.to_owned()
    } else {
        output.stderr.clone()
    };
    let combined = output.stdout.clone().concat("\n").concat(output.stderr.as_str());
    InstallResult { success: output.success, message, output: Some(combined) }
}

/// The tool lifecycle service.
pub struct ToolService;

impl ToolService {
    /// Plans the install of `tool` via `method` on `platform`, as
    /// `install_plan` describes it: a pair outside the table is
    /// refused, naming both tool and method, with no command to run.
    pub fn install(tool: &str, method: &str, platform: Platform) -> (r: Result<
        CommandSpec,
        AppError,
    >)
        ensures
            match install_plan(tool@, method@, platform) {
                Ok(c) => r matches Ok(x) && x@ == c,
                Err(e) => r matches Err(x) && x@ == e,
            },
    {
        if str_eq(tool, "alpha-code") && str_eq(method, "native") {
            if platform.is_windows() {
                Ok(cmd2("powershell", "-Command", "irm https://alpha.ai/install.ps1 | iex"))
            } else {
                Ok(cmd2("bash", "-c", "curl -fsSL https://alpha.ai/install.sh | bash"))
            }
        } else if str_eq(method, "npm") {
            let pkg: &str = if str_eq(tool, "alpha-code") {
                "@anthropic-ai/alpha-code"
            } else if str_eq(tool, "codex") {
                "@openai/codex"
            } else {
                return Err(
                    AppError::UnsupportedCombination { tool: tool.to_owned(), method: method.to_owned() },
                );
            };
            let args: Vec<String> = vec!["install".to_owned(), "-g".to_owned(), pkg.to_owned()];
            proof {
                assert(args_view(args@) =~= seq!["install"@, "-g"@, npm_package(tool@)]);
            }
            Ok(run_npm(platform, args))
        } else if str_eq(tool, "alpha-code") && str_eq(method, "brew") {
            Ok(cmd2("brew", "install", "alpha"))
        } else {
            Err(AppError::UnsupportedCombination { tool: tool.to_owned(), method: method.to_owned() })
        }
    }

    /// Plans the uninstall of `tool` on `platform`, as
    /// `uninstall_plan` describes it.
    pub fn uninstall(tool: &str, platform: Platform) -> (r: Result<CommandSpec, AppError>)
        ensures
            match uninstall_plan(tool@, platform) {
                Ok(c) => r matches Ok(x) && x@ == c,
                Err(e) => r matches Err(x) && x@ == e,
            },
    {
        match tool_binary(tool) {
            Some(_) => {
                let pkg: &str = if str_eq(tool, "alpha-code") {
                    "@anthropic-ai/alpha-code"
                } else {
                    "@openai/codex"
                };
                let args: Vec<String> = vec![
                    "uninstall".to_owned(),
                    "-g".to_owned(),
                    pkg.to_owned(),
                ];
                proof {
                    assert(args_view(args@) =~= seq!["uninstall"@, "-g"@, npm_package(tool@)]);
                }
                Ok(run_npm(platform, args))
            },
            None => Err(AppError::UnknownTool { tool: tool.to_owned() }),
        }
    }

    /// Interprets an uninstall outcome: a command that reported
    /// failure is an error carrying its captured error text.
    pub fn uninstall_outcome(output: &ShellOutput) -> (r: Result<(), AppError>)
        ensures
            output@.success ==> r is Ok,
            !output@.success ==> (r matches Err(e) && e@ == ErrorModel::ShellCommand {
                message: output@.stderr,
            }),
    {
        if output.success {
            Ok(())
        } else {
            Err(AppError::ShellCommand { message: output.stderr.clone() })
        }
    }

    /// Plans the process-listing probe for `tool` on `platform`, as
    /// `running_probe` describes it; an unknown tool has no probe and
    /// is reported as not running.
    pub fn check_running(tool: &str, platform: Platform) -> (r: Option<CommandSpec>)
        ensures
            match running_probe(tool@, platform) {
                Some(c) => r matches Some(x) && x@ == c,
                None => r is None,
            },
    {
        match tool_binary(tool) {
            Some(bin) => {
                if platform.is_windows() {
                    let image: String = "IMAGENAME eq ".to_owned().concat(bin).concat(".exe");
                    Some(cmd2s("tasklist", "/FI", image))
                } else {
                    Some(cmd2("pgrep", "-x", bin))
                }
            },
            None => None,
        }
    }

    /// Interprets a process-listing outcome, as `running_result`
    /// describes it; an unknown tool is never running.
    pub fn running_from_output(tool: &str, output: &ShellOutput) -> (r: bool)
        ensures
            r == (known_tool(tool@) && running_result(tool@, output@)),
    {
        match tool_binary(tool) {
            Some(bin) => output.success && contains_str(output.stdout.as_str(), bin),
            None => false,
        }
    }

    /// Plans the kill of `tool`'s own process on `platform`, as
    /// `kill_plan` describes it.
    pub fn kill_process(tool: &str, platform: Platform) -> (r: Result<CommandSpec, AppError>)
        ensures
            match kill_plan(tool@, platform) {
                Ok(c) => r matches Ok(x) && x@ == c,
                Err(e) => r matches Err(x) && x@ == e,
            },
    {
        match tool_binary(tool) {
            Some(bin) => {
                if platform.is_windows() {
                    let image: String = bin.to_owned().concat(".exe");
                    Ok(cmd3("taskkill", "/F", "/IM", image))
                } else {
                    Ok(cmd2("pkill", "-f", bin))
                }
            },
            None => Err(AppError::UnknownTool { tool: tool.to_owned() }),
        }
    }

    /// Interprets a kill outcome: a failure whose captured error text
    /// reports no such process is no error.
    pub fn kill_outcome(output: &ShellOutput) -> (r: Result<(), AppError>)
        ensures
            (output@.success || text_contains(output@.stderr, "not found"@)) <==> r is Ok,
            r matches Err(e) ==> e@ == (ErrorModel::ShellCommand { message: output@.stderr }),
    {
        if output.success || contains_str(output.stderr.as_str(), "not found") {
            Ok(())
        } else {
            Err(AppError::ShellCommand { message: output.stderr.clone() })
        }
    }

    /// Consults the status cache for `tool`: the cached status on a
    /// hit, a request to probe on a miss, the error naming an unknown
    /// tool before anything else. The cache is read, never written,
    /// and on a hit the caller has nothing left to probe.
    pub fn check_status(cache: &ToolCacheService, tool: &str) -> (r: Result<
        Option<ToolStatus>,
        AppError,
    >)
        ensures
            !known_tool(tool@) ==> (r matches Err(e) && e@ == ErrorModel::UnknownTool {
                tool: tool@,
            }),
            known_tool(tool@) ==> match cache.lookup(tool@) {
                Some(e) => r matches Ok(o) && o matches Some(s) && s@ == status_of_entry(e),
                None => r matches Ok(o) && o is None,
            },
    {
        match tool_binary(tool) {
            Some(_) => Ok(cache.get(tool)),
            None => Err(AppError::UnknownTool { tool: tool.to_owned() }),
        }
    }

    /// Assembles the status a probe reported, as `probed_status`
    /// describes it, records it in the cache stamped `now`, and
    /// returns it. Rows of other tools stay as they were; an unknown
    /// tool is refused with the cache untouched.
    pub fn record_status(
        cache: &mut ToolCacheService,
        tool: &str,
        which_out: Option<ShellOutput>,
        version_out: Option<ShellOutput>,
        running_out: Option<ShellOutput>,
        now: &str,
    ) -> (r: Result<ToolStatus, AppError>)
        ensures
            !known_tool(tool@) ==> ({
                &&& final(cache).entries@ == old(cache).entries@
                &&& r matches Err(e) && e@ == ErrorModel::UnknownTool { tool: tool@ }
            }),
            known_tool(tool@) ==> {
                let s = probed_status(
                    tool@,
                    opt_output_view_owned(which_out),
                    opt_output_view_owned(version_out),
                    opt_output_view_owned(running_out),
                );
                &&& r matches Ok(x) && x@ == s
                &&& crate::tool_cache_service::cache_view(final(cache).entries@)
                    == crate::assoc::assoc_set(
                    crate::tool_cache_service::cache_view(old(cache).entries@),
                    tool@,
                    entry_of_status(s, now@),
                )
            },
    {
        match tool_binary(tool) {
            Some(_) => {
                let path = which(which_out.as_ref());
                let installed = path.is_some();
                let version: Option<String> = if installed {
                    match &version_out {
                        Some(o) => if o.success {
                            Some(trim_str(o.stdout.as_str()))
                        } else {
                            None
                        },
                        None => None,
                    }
                } else {
                    None
                };
                let running: bool = match &running_out {
                    Some(o) => Self::running_from_output(tool, o),
                    None => false,
                };
                let status = ToolStatus { installed, path, version, install_method: None, running };
                cache.set(tool, &status, now);
                Ok(status)
            },
            None => Err(AppError::UnknownTool { tool: tool.to_owned() }),
        }
    }
}

/// The status of a tool that is not installed: every field at its
/// negative default.
pub open spec fn not_installed_status() -> ToolStatusModel {
    ToolStatusModel {
        installed: false,
        path: None,
        version: None,
        install_method: None,
        running: false,
    }
}

impl ToolService {
    /// Overwrites the cached row of `tool` with the not-installed
    /// status, stamped `now`: after a successful uninstall the caller
    /// must never observe the stale row. Rows of other tools stay as
    /// they were.
    pub fn mark_uninstalled(cache: &mut ToolCacheService, tool: &str, now: &str)
        ensures
            crate::tool_cache_service::cache_view(final(cache).entries@)
                == crate::assoc::assoc_set(
                crate::tool_cache_service::cache_view(old(cache).entries@),
                tool@,
                entry_of_status(not_installed_status(), now@),
            ),
    {
        let gone = ToolStatus {
            installed: false,
            path: None,
            version: None,
            install_method: None,
            running: false,
        };
        cache.set(tool, &gone, now);
    }
}

/// The model of an optional owned command outcome.
pub open spec fn opt_output_view_owned(o: Option<ShellOutput>) -> Option<ShellOutputModel> {
    match o {
        Some(x) => Some(x@),
        None => None,
    }
}

/// Once a probed status is recorded for a tool, a status check for it
/// hits the cache and returns exactly the recorded fields, the
/// live-only fields at their negative defaults — no second probe is
/// ever needed for the same tool until its row changes.
pub proof fn lemma_recorded_status_hits(
    c: Seq<(Seq<char>, CacheEntryModel)>,
    tool: Seq<char>,
    s: ToolStatusModel,
    now: Seq<char>,
)
    ensures
        crate::assoc::assoc_get(
            crate::assoc::assoc_set(c, tool, entry_of_status(s, now)),
            tool,
        ) == Some(entry_of_status(s, now)),
        status_of_entry(entry_of_status(s, now)) == (ToolStatusModel {
            install_method: None,
            running: false,
            ..s
        }),
{
    crate::assoc::lemma_assoc_get_set_same(c, tool, entry_of_status(s, now));
}

/// The node runtime service.
pub struct NodeService;

/// What the node-status probes assemble: node's version from its
/// version query; the version manager's from its own query, except on
/// Windows, where the manager starts a dialog when queried outside a
/// terminal and a path probe stands in (resolving to an empty
/// version).
pub open spec fn node_status_of(
    platform: Platform,
    node_out: Option<ShellOutputModel>,
    nvm_out: Option<ShellOutputModel>,
    nvm_path: Option<Seq<char>>,
) -> NodeStatusModel {
    let node_version = version_of(node_out);
    let nvm_version: Option<Seq<char>> = if platform is Windows {
        match nvm_path {
            Some(_) => Some(Seq::empty()),
            None => None,
        }
    } else {
        version_of(nvm_out)
    };
    NodeStatusModel {
        node_installed: node_version is Some,
        node_version,
        nvm_installed: nvm_version is Some,
        nvm_version,
    }
}

impl NodeService {
    /// Assembles the node status from the probes' outcomes, as
    /// `node_status_of` describes it.
    pub fn check_status(
        platform: Platform,
        node_out: Option<&ShellOutput>,
        nvm_out: Option<&ShellOutput>,
        nvm_path: Option<String>,
    ) -> (r: NodeStatus)
        ensures
            r@ == node_status_of(
                platform,
                opt_output_view(node_out),
                opt_output_view(nvm_out),
                opt_string_view(nvm_path),
            ),
    {
        let node_version: Option<String> = match node_out {
            Some(o) => if o.success {
                Some(trim_str(o.stdout.as_str()))
            } else {
                None
            },
            None => None,
        };
        let nvm_version: Option<String> = if platform.is_windows() {
            match nvm_path {
                Some(_) => Some(String::new()),
                None => None,
            }
        } else {
            match nvm_out {
                Some(o) => if o.success {
                    Some(trim_str(o.stdout.as_str()))
                } else {
                    None
                },
                None => None,
            }
        };
        NodeStatus {
            node_installed: node_version.is_some(),
            node_version,
            nvm_installed: nvm_version.is_some(),
            nvm_version,
        }
    }

    /// Plans the version-manager install on `platform`: the native
    /// installer download on Windows, the install script elsewhere.
    pub fn install_nvm(platform: Platform) -> (r: CommandSpec)
        ensures
            platform is Windows ==> r@ == (CommandModel {
                program: "powershell"@,
                args: seq![
                    "-Command"@,
                    "irm https://github.com/coreybutler/nvm-windows/releases/latest/download/nvm-setup.exe -OutFile $env:TEMP\nvm-setup.exe; Start-Process $env:TEMP\nvm-setup.exe -Wait"@,
                ],
            }),
            !(platform is Windows) ==> r@ == (CommandModel {
                program: "bash"@,
                args: seq![
                    "-c"@,
                    "curl -o- https://raw.githubusercontent.com/nvm-sh/nvm/v0.40.1/install.sh | bash"@,
                ],
            }),
    {
        if platform.is_windows() {
            cmd2(
                "powershell",
                "-Command",
                "irm https://github.com/coreybutler/nvm-windows/releases/latest/download/nvm-setup.exe -OutFile $env:TEMP\nvm-setup.exe; Start-Process $env:TEMP\nvm-setup.exe -Wait",
            )
        } else {
            cmd2(
                "bash",
                "-c",
                "curl -o- https://raw.githubusercontent.com/nvm-sh/nvm/v0.40.1/install.sh | bash",
            )
        }
    }

    /// Plans the long-term-support node install on `platform`: through
    /// the version manager directly on Windows, through its shell
    /// function elsewhere.
    pub fn install_node_lts(platform: Platform) -> (r: CommandSpec)
        ensures
            platform is Windows ==> r@ == (CommandModel {
                program: "nvm"@,
                args: seq!["install"@, "lts"@],
            }),
            !(platform is Windows) ==> r@ == (CommandModel {
                program: "bash"@,
                args: seq!["-c"@, "source ~/.nvm/nvm.sh && nvm install --lts"@],
            }),
    {
        if platform.is_windows() {
            cmd2("nvm", "install", "lts")
        } else {
            cmd2("bash", "-c", "source ~/.nvm/nvm.sh && nvm install --lts")
        }
    }
}

} // verus!
