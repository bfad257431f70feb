//! The arguments of one script execution, and how they are handed on to the
//! shell that runs the written script.
use vstd::prelude::*;
use crate::probe::{binary_name, ShellBinary};

verus! {

/// A target platform; carried through to the environment activation.
#[verifier::external_type_specification]
#[verifier::external_body]
pub struct ExSubdir(rattler_conda_types::Subdir);

/// What a build script runs.
pub enum ScriptContents {
    /// A command line to run as it stands.
    Inline(String),
    /// A script file, with the text that was read from it.
    Path { path: String, contents: String },
}

pub open spec fn body_of(s: &ScriptContents) -> Seq<char> {
    match s {
        ScriptContents::Inline(c) => c@,
        ScriptContents::Path { contents, .. } => contents@,
    }
}

impl ScriptContents {
    /// The script text to run.
    pub fn script(&self) -> (r: &str)
        ensures
            r@ == body_of(self),
    {
        match self {
            ScriptContents::Inline(c) => c.as_str(),
            ScriptContents::Path { contents, .. } => contents.as_str(),
        }
    }
}

/// Everything one execution of a build script needs.
pub struct ExecutionArgs {
    /// The directory the script is written to and run in.
    pub work_dir: String,
    pub script: ScriptContents,
    /// The prefix whose environment is activated first.
    pub run_prefix: String,
    /// A prefix whose environment is activated after the run prefix.
    pub build_prefix: Option<String>,
    pub execution_platform: rattler_conda_types::Subdir,
}

/// The shells that actually start a process.
#[derive(Clone, Copy, Debug, PartialEq, Eq, Structural)]
pub enum Leaf {
    /// `cmd.exe`, on Windows hosts.
    CmdExe,
    /// `bash`, everywhere else.
    Bash,
}

pub open spec fn leaf_for_host(host_is_windows: bool) -> Leaf {
    if host_is_windows {
        Leaf::CmdExe
    } else {
        Leaf::Bash
    }
}

/// The leaf shell that runs scripts on a host of the given family.
pub fn leaf_for(host_is_windows: bool) -> (r: Leaf)
    ensures
        r == leaf_for_host(host_is_windows),
{
    if host_is_windows {
        Leaf::CmdExe
    } else {
        Leaf::Bash
    }
}

/// `<binary> -NoLogo -NoProfile <script path>`.
pub open spec fn command_line_of(binary: ShellBinary, script_path: Seq<char>) -> Seq<char> {
    binary_name(binary) + " -NoLogo -NoProfile "@ + script_path
}

/// The command line that runs the script at `script_path` with `binary`,
/// without the start-up banner and without loading a profile.
pub fn command_line(binary: ShellBinary, script_path: &str) -> (r: String)
    ensures
        r@ == command_line_of(binary, script_path@),
{
    let mut r = String::new();
    r.append(binary.name());
    r.append(" -NoLogo -NoProfile ");
    r.append(script_path);
    r
}

/// Execution arguments handed to a leaf shell, and which leaf.
pub struct Delegation {
    pub leaf: Leaf,
    pub args: ExecutionArgs,
}

/// Rewrites `args` so that they run the written script at `script_path` with
/// `binary`, and picks the leaf shell of the host. Every field but the script is
/// kept.
pub fn delegate(args: ExecutionArgs, binary: ShellBinary, script_path: &str, host_is_windows: bool)
    -> (r: Delegation)
    ensures
        r.leaf == leaf_for_host(host_is_windows),
        r.args.script matches ScriptContents::Inline(c) && c@ == command_line_of(
            binary,
            script_path@,
        ),
        r.args.work_dir == args.work_dir,
        r.args.run_prefix == args.run_prefix,
        r.args.build_prefix == args.build_prefix,
        r.args.execution_platform == args.execution_platform,
{
    let line = command_line(binary, script_path);
    Delegation {
        leaf: leaf_for(host_is_windows),
        args: ExecutionArgs { script: ScriptContents::Inline(line), ..args },
    }
}

} // verus!
