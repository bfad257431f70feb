use pwsh_runner::execution::{command_line, delegate, leaf_for, ExecutionArgs, Leaf, ScriptContents};
use pwsh_runner::probe::{select_shell, ShellBinary, ShellProbe, CAPABILITY_WARNING};
use pwsh_runner::script::{
    assemble_script, script_path, POWERSHELL_POSTAMBLE, POWERSHELL_PREAMBLE,
    SCRIPT_FILE_NAME,
};
use pwsh_runner::version::{after_last_char, parse_int, split_first, trim_white, version_capability};
use rattler_conda_types::Subdir;

fn args(script: &str, build_prefix: Option<&str>) -> ExecutionArgs {
    ExecutionArgs {
        work_dir: "/tmp/b".to_string(),
        script: ScriptContents::Inline(script.to_string()),
        run_prefix: "/opt/env".to_string(),
        build_prefix: build_prefix.map(|b| b.to_string()),
        execution_platform: Subdir::Win64,
    }
}

#[test]
fn capability_at_threshold() {
    assert_eq!(version_capability("7.4.0"), Some(true));
    assert_eq!(version_capability("7.3.9"), Some(false));
    assert_eq!(version_capability("8.0.0"), Some(true));
    assert_eq!(version_capability("6.9"), Some(false));
    assert_eq!(version_capability("7.10"), Some(true));
}

#[test]
fn capability_needs_a_minor_component() {
    assert_eq!(version_capability("7"), None);
    assert_eq!(version_capability(""), None);
    assert_eq!(
        select_shell(Some("7")),
        ShellProbe { binary: ShellBinary::WindowsPowerShell, capable: false }
    );
}

#[test]
fn capability_reads_the_last_word_of_the_output() {
    assert_eq!(version_capability("PowerShell 7.4.2\n"), Some(true));
    assert_eq!(version_capability("  PowerShell 7.2.18\r\n"), Some(false));
    assert_eq!(version_capability("PowerShell 7.5.0-preview.3"), Some(true));
    assert_eq!(version_capability("PowerShell seven.four"), None);
}

#[test]
fn capability_needs_numbers_that_fit() {
    assert_eq!(version_capability("x.4"), None);
    assert_eq!(version_capability("7.x"), None);
    assert_eq!(version_capability("99999999999.0"), None);
    assert_eq!(version_capability("+8.-1"), Some(true));
}

#[test]
fn parse_int_matches_std() {
    for s in ["0", "7", "-7", "+7", "2147483647", "-2147483648", "2147483648", "-2147483649", "", "-", "+", "1a", "007", "99999999999999999999"] {
        assert_eq!(parse_int(s), s.parse::<i32>().ok(), "{}", s);
    }
}

#[test]
fn string_helpers() {
    assert_eq!(trim_white("\t a b \n"), "a b");
    assert_eq!(trim_white("   "), "");
    assert_eq!(after_last_char("a b c", ' '), "c");
    assert_eq!(after_last_char("abc", ' '), "abc");
    assert_eq!(after_last_char("abc ", ' '), "");
    assert_eq!(split_first("7.4.2", '.'), Some(("7", "4.2")));
    assert_eq!(split_first("7", '.'), None);
}

#[test]
fn probe_falls_back_when_pwsh_is_missing() {
    let p = select_shell(None);
    assert_eq!(p, ShellProbe { binary: ShellBinary::WindowsPowerShell, capable: false });
    assert_eq!(p.binary.name(), "powershell");
    assert_eq!(p.warning(), Some(CAPABILITY_WARNING));
}

#[test]
fn probe_keeps_an_old_pwsh() {
    let p = select_shell(Some("PowerShell 7.3.9"));
    assert_eq!(p, ShellProbe { binary: ShellBinary::Pwsh, capable: false });
    assert!(p.warning().is_some());
    let q = select_shell(Some("PowerShell 7.4.2"));
    assert_eq!(q, ShellProbe { binary: ShellBinary::Pwsh, capable: true });
    assert_eq!(q.warning(), None);
    assert_eq!(q.binary.name(), "pwsh");
}

#[test]
fn script_parts_stand_in_order() {
    let s = assemble_script("A\nB\n", None, "Write-Host hi");
    assert_eq!(s, format!("A\nB\n{}Write-Host hi{}", POWERSHELL_PREAMBLE, POWERSHELL_POSTAMBLE));
    assert!(POWERSHELL_PREAMBLE.contains("$ErrorActionPreference = 'Stop'"));
    assert!(POWERSHELL_POSTAMBLE.contains("tree $PREFIX /F"));
}

#[test]
fn script_assembly_is_repeatable() {
    assert_eq!(assemble_script("act", Some("b"), "body"), assemble_script("act", Some("b"), "body"));
    assert_eq!(assemble_script("act", None, "body"), assemble_script("act", None, "body"));
}

#[test]
fn build_activation_follows_host_activation() {
    let s = assemble_script("HOST\n", Some("BUILD\n"), "body");
    assert_eq!(s, format!("HOST\nBUILD\n{}body{}", POWERSHELL_PREAMBLE, POWERSHELL_POSTAMBLE));
    let t = assemble_script("HOST\n", None, "body");
    assert_eq!(t, format!("HOST\n{}body{}", POWERSHELL_PREAMBLE, POWERSHELL_POSTAMBLE));
}

#[test]
fn script_file_is_in_the_working_directory() {
    assert_eq!(SCRIPT_FILE_NAME, "conda_build_script.ps1");
    let p = script_path("/tmp/b");
    assert!(p.starts_with("/tmp/b"));
    assert!(p.ends_with("conda_build_script.ps1"));
    assert_eq!(p.len(), "/tmp/b".len() + 1 + SCRIPT_FILE_NAME.len());
    assert_eq!(p, format!("/tmp/b{}conda_build_script.ps1", std::path::MAIN_SEPARATOR));
}

#[test]
fn script_file_after_a_trailing_separator() {
    assert_eq!(script_path("/tmp/b/"), "/tmp/b/conda_build_script.ps1");
    assert_eq!(script_path(""), "conda_build_script.ps1");
}

#[test]
fn leaf_follows_the_host() {
    assert_eq!(leaf_for(true), Leaf::CmdExe);
    assert_eq!(leaf_for(false), Leaf::Bash);
}

#[test]
fn delegation_keeps_other_fields() {
    let d = delegate(args("echo 1", Some("/opt/build")), ShellBinary::Pwsh, "/tmp/b/s.ps1", false);
    assert_eq!(d.leaf, Leaf::Bash);
    assert_eq!(d.args.work_dir, "/tmp/b");
    assert_eq!(d.args.run_prefix, "/opt/env");
    assert_eq!(d.args.build_prefix.as_deref(), Some("/opt/build"));
    assert_eq!(d.args.execution_platform, Subdir::Win64);
    assert!(matches!(d.args.script, ScriptContents::Inline(ref c) if c == "pwsh -NoLogo -NoProfile /tmp/b/s.ps1"));
}

#[test]
fn script_body_from_file_contents() {
    let s = ScriptContents::Path { path: "/x/build.ps1".to_string(), contents: "Write-Host file".to_string() };
    assert_eq!(s.script(), "Write-Host file");
    assert_eq!(ScriptContents::Inline("Write-Host hi".to_string()).script(), "Write-Host hi");
}

#[test]
fn capable_pwsh_on_windows() {
    let probe = select_shell(Some("PowerShell 7.4.2"));
    assert_eq!(probe.warning(), None);
    let a = args("Write-Host hi", None);
    let activation = "$Env:PATH = \"/opt/env/bin\"\n";
    let contents = assemble_script(activation, None, a.script.script());
    assert_eq!(contents, format!("{}{}Write-Host hi{}", activation, POWERSHELL_PREAMBLE, POWERSHELL_POSTAMBLE));
    let path = "/tmp/b/conda_build_script.ps1";
    let d = delegate(a, probe.binary, path, true);
    assert_eq!(d.leaf, Leaf::CmdExe);
    assert!(matches!(d.args.script, ScriptContents::Inline(ref c) if c == "pwsh -NoLogo -NoProfile /tmp/b/conda_build_script.ps1"));
}

#[test]
fn missing_pwsh_on_windows() {
    let probe = select_shell(None);
    let w = probe.warning().unwrap();
    assert!(w.contains("7.4"));
    let d = delegate(args("Write-Host hi", None), probe.binary, "/tmp/b/conda_build_script.ps1", true);
    assert_eq!(d.leaf, Leaf::CmdExe);
    assert_eq!(command_line(probe.binary, "/tmp/b/conda_build_script.ps1"), "powershell -NoLogo -NoProfile /tmp/b/conda_build_script.ps1");
    assert!(matches!(d.args.script, ScriptContents::Inline(ref c) if c == "powershell -NoLogo -NoProfile /tmp/b/conda_build_script.ps1"));
}
