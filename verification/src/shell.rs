//! Command shapes and command-output interpretation. The library never
//! spawns a process itself: it plans a concrete command (program plus
//! argument vector) for the caller to run, and interprets the captured
//! outcome the caller hands back.

use vstd::prelude::*;
use vstd::string::StrSliceExecFns;

use crate::platform::Platform;
use crate::text::opt_string_view;
use crate::text::trim_str;
use crate::text::trim_view;

verus! {

/// Captured outcome of one external command: whether it exited
/// successfully, and its standard output and error text. A command
/// that ran but exited non-zero is a `ShellOutput` with
/// `success == false`, never an error.
#[derive(Debug, PartialEq)]
pub struct ShellOutput {
    pub success: bool,
    pub stdout: String,
    pub stderr: String,
}

/// The mathematical model of a command outcome.
pub struct ShellOutputModel {
    pub success: bool,
    pub stdout: Seq<char>,
    pub stderr: Seq<char>,
}

impl View for ShellOutput {
    type V = ShellOutputModel;

    open spec fn view(&self) -> ShellOutputModel {
        ShellOutputModel { success: self.success, stdout: self.stdout@, stderr: self.stderr@ }
    }
}

/// A concrete command to run: a program name and its argument vector.
#[derive(Debug, PartialEq)]
pub struct CommandSpec {
    pub program: String,
    pub args: Vec<String>,
}

/// The mathematical model of a command.
pub struct CommandModel {
    pub program: Seq<char>,
    pub args: Seq<Seq<char>>,
}

/// The model of an argument vector.
pub open spec fn args_view(args: Seq<String>) -> Seq<Seq<char>> {
    Seq::new(args.len(), |i: int| args[i]@)
}

impl View for CommandSpec {
    type V = CommandModel;

    open spec fn view(&self) -> CommandModel {
        CommandModel { program: self.program@, args: args_view(self.args@) }
    }
}

/// A command with one argument.
pub(crate) fn cmd1(program: &str, a0: &str) -> (r: CommandSpec)
    ensures
        r@ == (CommandModel { program: program@, args: seq![a0@] }),
{
    let r = CommandSpec { program: program.to_owned(), args: vec![a0.to_owned()] };
    proof {
        assert(r@.args =~= seq![a0@]);
    }
    r
}

/// A command with two arguments.
pub(crate) fn cmd2(program: &str, a0: &str, a1: &str) -> (r: CommandSpec)
    ensures
        r@ == (CommandModel { program: program@, args: seq![a0@, a1@] }),
{
    let r = CommandSpec { program: program.to_owned(), args: vec![a0.to_owned(), a1.to_owned()] };
    proof {
        assert(r@.args =~= seq![a0@, a1@]);
    }
    r
}

/// A command with two arguments, the last given as an owned string.
pub(crate) fn cmd2s(program: &str, a0: &str, a1: String) -> (r: CommandSpec)
    ensures
        r@ == (CommandModel { program: program@, args: seq![a0@, a1@] }),
{
    let ghost a1v = a1@;
    let r = CommandSpec { program: program.to_owned(), args: vec![a0.to_owned(), a1] };
    proof {
        assert(r@.args =~= seq![a0@, a1v]);
    }
    r
}

/// A command with three arguments, the last given as an owned string.
pub(crate) fn cmd3(program: &str, a0: &str, a1: &str, a2: String) -> (r: CommandSpec)
    ensures
        r@ == (CommandModel { program: program@, args: seq![a0@, a1@, a2@] }),
{
    let ghost a2v = a2@;
    let r = CommandSpec { program: program.to_owned(), args: vec![a0.to_owned(), a1.to_owned(), a2] };
    proof {
        assert(r@.args =~= seq![a0@, a1@, a2v]);
    }
    r
}

/// The npm invocation for the given arguments: on Windows npm is a
/// batch file that only the command interpreter can start, so the call
/// goes through `cmd /c npm`; elsewhere npm runs directly.
pub open spec fn npm_invocation(platform: Platform, args: Seq<Seq<char>>) -> CommandModel {
    if platform is Windows {
        CommandModel { program: "cmd"@, args: seq!["/c"@, "npm"@] + args }
    } else {
        CommandModel { program: "npm"@, args }
    }
}

/// Plans the command that runs npm with `args` on `platform`.
pub fn run_npm(platform: Platform, args: Vec<String>) -> (r: CommandSpec)
    ensures
        r@ == npm_invocation(platform, args_view(args@)),
{
    if platform.is_windows() {
        let mut v: Vec<String> = vec!["/c".to_owned(), "npm".to_owned()];
        let ghost argsv = args_view(args@);
        let mut rest = args;
        v.append(&mut rest);
        let r = CommandSpec { program: "cmd".to_owned(), args: v };
        proof {
            assert(r@.args =~= seq!["/c"@, "npm"@] + argsv);
        }
        r
    } else {
        let r = CommandSpec { program: "npm".to_owned(), args };
        r
    }
}

/// The platform's probe for resolving a command on the search path.
pub open spec fn which_command_model(platform: Platform, cmd: Seq<char>) -> CommandModel {
    if platform is Windows {
        CommandModel { program: "where"@, args: seq![cmd] }
    } else {
        CommandModel { program: "which"@, args: seq![cmd] }
    }
}

/// Plans the probe that resolves `cmd` on the search path: `where` on
/// Windows, `which` elsewhere.
pub fn which_command(platform: Platform, cmd: &str) -> (r: CommandSpec)
    ensures
        r@ == which_command_model(platform, cmd@),
{
    if platform.is_windows() {
        cmd1("where", cmd)
    } else {
        cmd1("which", cmd)
    }
}

/// What a path probe resolved to: the trimmed output on success,
/// nothing when the probe failed to run or reported no hit.
pub open spec fn which_result(probe: Option<ShellOutputModel>) -> Option<Seq<char>> {
    match probe {
        Some(o) => if o.success {
            Some(trim_view(o.stdout))
        } else {
            None
        },
        None => None,
    }
}

/// The model of an optional command outcome.
pub open spec fn opt_output_view(probe: Option<&ShellOutput>) -> Option<ShellOutputModel> {
    match probe {
        Some(o) => Some(o@),
        None => None,
    }
}

/// Interprets a path probe's outcome: the first resolved path, or
/// nothing. A probe that could not run at all is handed in as `None`
/// and resolves to nothing rather than an error.
pub fn which(probe: Option<&ShellOutput>) -> (r: Option<String>)
    ensures
        opt_string_view(r) == which_result(opt_output_view(probe)),
{
    match probe {
        Some(o) => if o.success {
            Some(trim_str(o.stdout.as_str()))
        } else {
            None
        },
        None => None,
    }
}

} // verus!
