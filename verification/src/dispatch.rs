//! Planning of a backend run.
//!
//! The backend is either a packaged binary or a script run through its
//! interpreter.  Candidate locations relative to the working directory are
//! probed in a fixed priority order — the two binary locations first, then
//! the two script locations — and the first match decides the artifact.
//! Argument construction and the shaping of the run's result are the same
//! for both variants; the caller performs the existence probes and the
//! child-process launch and feeds their outcomes in.

use vstd::prelude::*;

verus! {

pub open spec fn binary_primary_path(cwd: Seq<char>) -> Seq<char> {
    cwd + "/src-tauri/binaries/MessagesWrapped"@
}

pub open spec fn binary_alt_path(cwd: Seq<char>) -> Seq<char> {
    cwd + "/binaries/MessagesWrapped"@
}

pub open spec fn script_sibling_path(cwd: Seq<char>) -> Seq<char> {
    cwd + "/../Backend/MessagesWrapped.py"@
}

pub open spec fn script_local_path(cwd: Seq<char>) -> Seq<char> {
    cwd + "/Backend/MessagesWrapped.py"@
}

/// The artifact a dispatch resolved to.  `Missing` names the last candidate
/// path that was checked.
pub enum BackendArtifact {
    Binary { path: String },
    Script { interpreter: String, path: String },
    Missing { checked: String },
}

pub enum BackendArtifactView {
    Binary { path: Seq<char> },
    Script { interpreter: Seq<char>, path: Seq<char> },
    Missing { checked: Seq<char> },
}

impl View for BackendArtifact {
    type V = BackendArtifactView;

    open spec fn view(&self) -> BackendArtifactView {
        match self {
            BackendArtifact::Binary { path } => BackendArtifactView::Binary { path: path@ },
            BackendArtifact::Script { interpreter, path } => BackendArtifactView::Script {
                interpreter: interpreter@,
                path: path@,
            },
            BackendArtifact::Missing { checked } => BackendArtifactView::Missing {
                checked: checked@,
            },
        }
    }
}

/// First-match selection over the probe results for the four candidate
/// locations, in priority order.
pub open spec fn select_artifact_spec(
    cwd: Seq<char>,
    bin_primary: bool,
    bin_alt: bool,
    script_sibling: bool,
    script_local: bool,
) -> BackendArtifactView {
    if bin_primary {
        BackendArtifactView::Binary { path: binary_primary_path(cwd) }
    } else if bin_alt {
        BackendArtifactView::Binary { path: binary_alt_path(cwd) }
    } else if script_sibling {
        BackendArtifactView::Script { interpreter: "python3"@, path: script_sibling_path(cwd) }
    } else if script_local {
        BackendArtifactView::Script { interpreter: "python3"@, path: script_local_path(cwd) }
    } else {
        BackendArtifactView::Missing { checked: script_local_path(cwd) }
    }
}

fn join_under(cwd: &str, rest: &str) -> (r: String)
    ensures
        r@ == cwd@ + rest@,
{
    let mut r = String::from_str(cwd);
    r.append(rest);
    r
}

/// Resolve the artifact from the working directory and the four existence
/// probes, one per candidate location.
pub fn select_artifact(
    cwd: &str,
    bin_primary: bool,
    bin_alt: bool,
    script_sibling: bool,
    script_local: bool,
) -> (a: BackendArtifact)
    ensures
        a@ == select_artifact_spec(cwd@, bin_primary, bin_alt, script_sibling, script_local),
{
    if bin_primary {
        BackendArtifact::Binary { path: join_under(cwd, "/src-tauri/binaries/MessagesWrapped") }
    } else if bin_alt {
        BackendArtifact::Binary { path: join_under(cwd, "/binaries/MessagesWrapped") }
    } else if script_sibling {
        BackendArtifact::Script {
            interpreter: String::from_str("python3"),
            path: join_under(cwd, "/../Backend/MessagesWrapped.py"),
        }
    } else if script_local {
        BackendArtifact::Script {
            interpreter: String::from_str("python3"),
            path: join_under(cwd, "/Backend/MessagesWrapped.py"),
        }
    } else {
        BackendArtifact::Missing { checked: join_under(cwd, "/Backend/MessagesWrapped.py") }
    }
}

/// A fully planned child-process invocation.
#[derive(Debug)]
pub struct Invocation {
    pub program: String,
    pub args: Vec<String>,
}

pub struct InvocationView {
    pub program: Seq<char>,
    pub args: Seq<Seq<char>>,
}

impl View for Invocation {
    type V = InvocationView;

    open spec fn view(&self) -> InvocationView {
        InvocationView { program: self.program@, args: self.args.deep_view() }
    }
}

/// The two arguments every backend run is invoked with.
pub open spec fn dispatch_args_spec(exports_dir: Seq<char>) -> Seq<Seq<char>> {
    seq!["--exports-dir="@ + exports_dir, "--max-workers=4"@]
}

pub fn dispatch_args(exports_dir: &str) -> (args: Vec<String>)
    ensures
        args.deep_view() == dispatch_args_spec(exports_dir@),
{
    let mut first = String::from_str("--exports-dir=");
    first.append(exports_dir);
    let second = String::from_str("--max-workers=4");
    let mut args: Vec<String> = Vec::new();
    args.push(first);
    args.push(second);
    proof {
        assert(args.deep_view() =~~= dispatch_args_spec(exports_dir@));
    }
    args
}

pub open spec fn missing_message(checked: Seq<char>) -> Seq<char> {
    "No backend binary or script found. Checked "@ + checked
}

/// The invocation for an artifact: the binary runs with the two standard
/// arguments; a script runs through its interpreter with the script path
/// prepended; a missing artifact is a descriptive error.
pub open spec fn invocation_plan_spec(a: BackendArtifactView, exports_dir: Seq<char>) -> Result<
    InvocationView,
    Seq<char>,
> {
    match a {
        BackendArtifactView::Binary { path } => Ok(
            InvocationView { program: path, args: dispatch_args_spec(exports_dir) },
        ),
        BackendArtifactView::Script { interpreter, path } => Ok(
            InvocationView {
                program: interpreter,
                args: seq![path] + dispatch_args_spec(exports_dir),
            },
        ),
        BackendArtifactView::Missing { checked } => Err(missing_message(checked)),
    }
}

pub fn plan_invocation(a: &BackendArtifact, exports_dir: &str) -> (r: Result<Invocation, String>)
    ensures
        match r {
            Ok(inv) => invocation_plan_spec(a@, exports_dir@) == Ok::<InvocationView, Seq<char>>(
                inv@,
            ),
            Err(m) => invocation_plan_spec(a@, exports_dir@) == Err::<InvocationView, Seq<char>>(
                m@,
            ),
        },
{
    match a {
        BackendArtifact::Binary { path } => Ok(
            Invocation { program: path.clone(), args: dispatch_args(exports_dir) },
        ),
        BackendArtifact::Script { interpreter, path } => {
            let mut args: Vec<String> = Vec::new();
            args.push(path.clone());
            let mut rest = dispatch_args(exports_dir);
            let ghost restseq = rest@;
            let ghost restv = rest.deep_view();
            args.append(&mut rest);
            let inv = Invocation { program: interpreter.clone(), args };
            proof {
                let dv = inv.args.deep_view();
                let goal = seq![path@] + dispatch_args_spec(exports_dir@);
                assert forall|i: int| 0 <= i < dv.len() implies dv[i] == goal[i] by {
                    if i > 0 {
                        assert(inv.args@[i] == restseq[i - 1]);
                        assert(restv[i - 1] == restseq[i - 1].deep_view());
                    }
                }
                assert(dv =~= goal);
            }
            Ok(inv)
        },
        BackendArtifact::Missing { checked } => {
            let mut m = String::from_str("No backend binary or script found. Checked ");
            m.append(checked.as_str());
            Err(m)
        },
    }
}

/// Plan a whole dispatch: resolve the artifact, then its invocation.
pub fn plan_dispatch(
    cwd: &str,
    bin_primary: bool,
    bin_alt: bool,
    script_sibling: bool,
    script_local: bool,
    exports_dir: &str,
) -> (r: Result<Invocation, String>)
    ensures
        match r {
            Ok(inv) => invocation_plan_spec(
                select_artifact_spec(cwd@, bin_primary, bin_alt, script_sibling, script_local),
                exports_dir@,
            ) == Ok::<InvocationView, Seq<char>>(inv@),
            Err(m) => invocation_plan_spec(
                select_artifact_spec(cwd@, bin_primary, bin_alt, script_sibling, script_local),
                exports_dir@,
            ) == Err::<InvocationView, Seq<char>>(m@),
        },
{
    let a = select_artifact(cwd, bin_primary, bin_alt, script_sibling, script_local);
    plan_invocation(&a, exports_dir)
}

/// Shape the result of a finished child process: the streams concatenate
/// stdout-first either way, and the exit status alone decides the tag.
pub fn combine_output(stdout_text: &str, stderr_text: &str, succeeded: bool) -> (r: Result<
    String,
    String,
>)
    ensures
        match r {
            Ok(t) => succeeded && t@ == stdout_text@ + stderr_text@,
            Err(t) => !succeeded && t@ == stdout_text@ + stderr_text@,
        },
{
    let mut combined = String::from_str(stdout_text);
    combined.append(stderr_text);
    if succeeded {
        Ok(combined)
    } else {
        Err(combined)
    }
}

pub open spec fn binary_spawn_failure(detail: Seq<char>) -> Seq<char> {
    "Failed to execute binary: "@ + detail
}

pub open spec fn script_spawn_failure(detail: Seq<char>) -> Seq<char> {
    "Failed to spawn python3: "@ + detail
}

/// The error for a child process that could not be started at all; `binary`
/// says which artifact variant was being launched.
pub fn spawn_failure_message(binary: bool, detail: &str) -> (r: String)
    ensures
        r@ == if binary {
            binary_spawn_failure(detail@)
        } else {
            script_spawn_failure(detail@)
        },
{
    let mut r = if binary {
        String::from_str("Failed to execute binary: ")
    } else {
        String::from_str("Failed to spawn python3: ")
    };
    r.append(detail);
    r
}

} // verus!
