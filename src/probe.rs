//! Choosing the PowerShell binary from the result of probing for `pwsh`.
use vstd::prelude::*;
use crate::version::{capability_of, version_capability};

verus! {

/// The PowerShell binaries a script can be run with.
#[derive(Clone, Copy, Debug, PartialEq, Eq, Structural)]
pub enum ShellBinary {
    /// `pwsh`, PowerShell 7 and later.
    Pwsh,
    /// `powershell`, the legacy Windows PowerShell.
    WindowsPowerShell,
}

pub open spec fn binary_name(b: ShellBinary) -> Seq<char> {
    match b {
        ShellBinary::Pwsh => seq!['p', 'w', 's', 'h'],
        ShellBinary::WindowsPowerShell => seq![
            'p', 'o', 'w', 'e', 'r', 's', 'h', 'e', 'l', 'l'
        ],
    }
}

impl ShellBinary {
    /// The command name of the binary.
    pub fn name(&self) -> (r: &'static str)
        ensures
            r@ == binary_name(*self),
    {
        match self {
            ShellBinary::Pwsh => {
                proof {
                    reveal_strlit("pwsh");
                }
                "pwsh"
            },
            ShellBinary::WindowsPowerShell => {
                proof {
                    reveal_strlit("powershell");
                }
                "powershell"
            },
        }
    }
}

/// The outcome of probing for a PowerShell binary: which one to run, and whether
/// it is recent enough to stop on failing native commands.
#[derive(Clone, Copy, Debug, PartialEq, Eq, Structural)]
pub struct ShellProbe {
    pub binary: ShellBinary,
    pub capable: bool,
}

/// The message given when the chosen binary is not capable enough.
pub const CAPABILITY_WARNING: &'static str =
    "rattler-build requires PowerShell 7.4+, otherwise it will skip native command errors!";

/// What the probe yields for the output of `pwsh -v`; `None` stands for a `pwsh`
/// that could not be found or run, or whose output was not text.
pub open spec fn probe_of(version_output: Option<Seq<char>>) -> ShellProbe {
    match version_output {
        Some(out) => match capability_of(out) {
            Some(c) => ShellProbe { binary: ShellBinary::Pwsh, capable: c },
            None => ShellProbe { binary: ShellBinary::WindowsPowerShell, capable: false },
        },
        None => ShellProbe { binary: ShellBinary::WindowsPowerShell, capable: false },
    }
}

/// Chooses the binary from the output of `pwsh -v`, falling back to the legacy
/// binary when `pwsh` is absent or its version cannot be read.
pub fn select_shell(version_output: Option<&str>) -> (r: ShellProbe)
    ensures
        r == probe_of(
            match version_output {
                Some(out) => Some(out@),
                None => None,
            },
        ),
{
    match version_output {
        Some(out) => match version_capability(out) {
            Some(c) => ShellProbe { binary: ShellBinary::Pwsh, capable: c },
            None => ShellProbe { binary: ShellBinary::WindowsPowerShell, capable: false },
        },
        None => ShellProbe { binary: ShellBinary::WindowsPowerShell, capable: false },
    }
}

impl ShellProbe {
    /// The warning to give before running with this binary, if any.
    pub fn warning(&self) -> (r: Option<&'static str>)
        ensures
            r is Some <==> !self.capable,
            r matches Some(w) ==> w@ == CAPABILITY_WARNING@,
    {
        if self.capable {
            None
        } else {
            Some(CAPABILITY_WARNING)
        }
    }
}

/// When `pwsh` is absent, cannot be run, or prints no readable version, the
/// probe falls back to the legacy binary and reports it as not capable; it
/// never fails.
pub proof fn fallback_to_legacy(version_output: Option<Seq<char>>)
    requires
        version_output matches Some(out) ==> capability_of(out) is None,
    ensures
        probe_of(version_output) == (ShellProbe {
            binary: ShellBinary::WindowsPowerShell,
            capable: false,
        }),
{
}

} // verus!
