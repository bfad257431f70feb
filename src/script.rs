//! Assembling the PowerShell build script and where it is written.
use vstd::prelude::*;

verus! {

/// Makes every failure stop the script, failing native commands included, and
/// copies each inherited environment variable into a script variable of the
/// same name unless one already exists.
pub const POWERSHELL_PREAMBLE: &'static str = r#"
$ErrorActionPreference = 'Stop'
$PSNativeCommandUseErrorActionPreference = $true

foreach ($envVar in Get-ChildItem Env:) {
    if (-not (Test-Path -Path Variable:$($envVar.Name))) {
        Set-Variable -Name $envVar.Name -Value $envVar.Value
    }
}

"#;

/// Compresses the executables and libraries under the library prefix when `upx`
/// is on the path, then lists the prefix.
pub const POWERSHELL_POSTAMBLE: &'static str = r#"
if (Get-Command 'upx' -ErrorAction SilentlyContinue) {
    $files = Get-ChildItem -Path $LIBRARY_PREFIX -Recurse -Include *.exe, *.dll -Attributes !ReparsePoint
    if ($files) {
        upx -9 $files
    }
}

tree $PREFIX /F

"#;

/// The name of the script file inside the working directory.
pub const SCRIPT_FILE_NAME: &'static str = "conda_build_script.ps1";

/// The activation text: the run prefix's fragment, then the build prefix's.
pub open spec fn activation_of(host: Seq<char>, build: Option<Seq<char>>) -> Seq<char> {
    match build {
        Some(b) => host + b,
        None => host,
    }
}

/// The full script text: activation, preamble, body, postamble, in that order.
pub open spec fn script_text(host: Seq<char>, build: Option<Seq<char>>, body: Seq<char>) -> Seq<
    char,
> {
    activation_of(host, build) + POWERSHELL_PREAMBLE@ + body + POWERSHELL_POSTAMBLE@
}

/// Assembles the script that activates the run prefix (`host`), then the build
/// prefix if there is one (`build`), and runs `body`.
pub fn assemble_script(host: &str, build: Option<&str>, body: &str) -> (r: String)
    ensures
        r@ == script_text(
            host@,
            match build {
                Some(b) => Some(b@),
                None => None,
            },
            body@,
        ),
{
    let mut r = String::new();
    r.append(host);
    match build {
        Some(b) => r.append(b),
        None => {},
    }
    r.append(POWERSHELL_PREAMBLE);
    r.append(body);
    r.append(POWERSHELL_POSTAMBLE);
    r
}

/// A script holds its parts at fixed places: the run prefix's activation first,
/// the build prefix's after it, then the preamble, the body and the postamble,
/// and nothing else.
pub proof fn script_layout(host: Seq<char>, build: Seq<char>, body: Seq<char>)
    ensures
        ({
            let t = script_text(host, Some(build), body);
            let h = host.len() as int;
            let a = h + build.len();
            let p = POWERSHELL_PREAMBLE@.len() as int;
            &&& t.len() == a + p + body.len() + POWERSHELL_POSTAMBLE@.len()
            &&& t.subrange(0, h) == host
            &&& t.subrange(h, a) == build
            &&& t.subrange(a, a + p) == POWERSHELL_PREAMBLE@
            &&& t.subrange(a + p, a + p + body.len() as int) == body
            &&& t.subrange(a + p + body.len() as int, t.len() as int) == POWERSHELL_POSTAMBLE@
        }),
{
    let t = script_text(host, Some(build), body);
    let h = host.len() as int;
    let a = h + build.len();
    let p = POWERSHELL_PREAMBLE@.len() as int;
    assert(t.subrange(0, h) =~= host);
    assert(t.subrange(h, a) =~= build);
    assert(t.subrange(a, a + p) =~= POWERSHELL_PREAMBLE@);
    assert(t.subrange(a + p, a + p + body.len() as int) =~= body);
    assert(t.subrange(a + p + body.len() as int, t.len() as int) =~= POWERSHELL_POSTAMBLE@);
}

/// Assembling twice from the same fragments and body gives the same text.
pub proof fn script_text_deterministic(
    host1: Seq<char>,
    build1: Option<Seq<char>>,
    body1: Seq<char>,
    host2: Seq<char>,
    build2: Option<Seq<char>>,
    body2: Seq<char>,
)
    requires
        host1 == host2,
        build1 == build2,
        body1 == body2,
    ensures
        script_text(host1, build1, body1) == script_text(host2, build2, body2),
{
}

/// `r` ends with `name`.
pub open spec fn ends_with(r: Seq<char>, name: Seq<char>) -> bool {
    r.len() >= name.len() && r.subrange(r.len() - name.len(), r.len() as int) == name
}

/// A directory with a verbatim prefix (`\\?\`), which joining rebuilds from
/// its normalized components.
pub open spec fn verbatim(dir: Seq<char>) -> bool {
    dir.len() >= 4 && dir.subrange(0, 4) == seq!['\\', '\\', '?', '\\']
}

/// `dir` joined with `name`: the two side by side, or with one `/` or `\`
/// between them.
pub open spec fn joined(dir: Seq<char>, name: Seq<char>, r: Seq<char>) -> bool {
    ||| r == dir + name
    ||| r == dir + seq!['/'] + name
    ||| r == dir + seq!['\\'] + name
}

/// A file name without separators, drive or root, and other than `.` and `..`:
/// joining it never replaces or shortens the directory.
pub open spec fn plain_file_name(name: Seq<char>) -> bool {
    &&& name.len() > 0
    &&& name != seq!['.']
    &&& name != seq!['.', '.']
    &&& forall|i: int| 0 <= i < name.len() ==> #[trigger] name[i] != '/' && name[i] != '\\' && name[i] != ':'
}

/// A directory after which a join must put a separator: not empty, and not
/// ending in a separator or a drive's colon.
pub open spec fn needs_separator(dir: Seq<char>) -> bool {
    dir.len() > 0 && dir.last() != '/' && dir.last() != '\\' && dir.last() != ':'
}

/// Relies on `std::path::Path::join` (`PathBuf::push`) with a plain file name:
/// the path ends with the name. Outside a verbatim prefix the directory is kept
/// as it is, and the platform's separator is put between the two unless the
/// directory is empty, already ends in a separator, or is a bare drive.
#[verifier::external_body]
fn join_path(dir: &str, name: &str) -> (r: String)
    requires
        plain_file_name(name@),
    ensures
        ends_with(r@, name@),
        !verbatim(dir@) ==> joined(dir@, name@, r@),
        !verbatim(dir@) && needs_separator(dir@) ==> (r@ == dir@ + seq!['/'] + name@ || r@ == dir@
            + seq!['\\'] + name@),
{
    std::path::Path::new(dir).join(name).to_string_lossy().into_owned()
}

/// The path of the script file inside `work_dir`.
pub fn script_path(work_dir: &str) -> (r: String)
    ensures
        ends_with(r@, SCRIPT_FILE_NAME@),
        !verbatim(work_dir@) ==> joined(work_dir@, SCRIPT_FILE_NAME@, r@),
        !verbatim(work_dir@) && needs_separator(work_dir@) ==> (r@ == work_dir@ + seq!['/']
            + SCRIPT_FILE_NAME@ || r@ == work_dir@ + seq!['\\'] + SCRIPT_FILE_NAME@),
{
    proof {
        reveal_strlit("conda_build_script.ps1");
    }
    join_path(work_dir, SCRIPT_FILE_NAME)
}

} // verus!
