//! The executor: which program a token sequence is handed to, and what the
//! outcome of the finished process means.

use crate::arguments::copy_tokens;
use crate::error::{GhError, GhErrorView};
use crate::process::{reported_code, ExecutionOutcome, Invocation, InvocationView};
use crate::text::{decode_lossy, decode_strict, lossy_text};
use std::sync::Arc;
use vstd::prelude::*;
use vstd::utf8::{decode_utf8, valid_utf8};

verus! {

/// Knows the program to start. Never changes after construction, so any
/// number of commands may share one executor.
#[derive(Debug)]
pub struct GhExecutor {
    /// Name or path of the `gh` binary. The bare name `gh` leaves the lookup
    /// to the platform's search path.
    pub gh_path: String,
}

impl Clone for GhExecutor {
    fn clone(&self) -> (r: Self)
        ensures
            r.gh_path@ == self.gh_path@,
    {
        GhExecutor { gh_path: self.gh_path.clone() }
    }
}

impl Default for GhExecutor {
    /// The executor that starts `gh` from the search path.
    fn default() -> (r: Self)
        ensures
            r.gh_path@ == "gh"@,
    {
        GhExecutor { gh_path: "gh".to_owned() }
    }
}

/// `Arc::clone`: one more handle to the same executor.
#[verifier::external_body]
pub(crate) fn share(executor: &Arc<GhExecutor>) -> (r: Arc<GhExecutor>)
    ensures
        r == *executor,
{
    Arc::clone(executor)
}

/// What a finished command yields: the standard output of a run that exited
/// with zero, decoded strictly; otherwise the matching error.
pub open spec fn run_result(
    spawned: Result<ExecutionOutcome, std::io::Error>,
    r: Result<String, GhError>,
) -> bool {
    match spawned {
        Err(e) => r matches Err(err) && err@ == GhErrorView::IoError(e),
        Ok(out) => if !out.succeeded() {
            r matches Err(err) && err@ == (GhErrorView::CommandFailed {
                code: reported_code(out.code),
                stderr: lossy_text(out.stderr@),
            })
        } else if valid_utf8(out.stdout@) {
            r matches Ok(text) && text@ == decode_utf8(out.stdout@)
        } else {
            r matches Err(GhError::Utf8Error(_))
        },
    }
}

/// What the version probe yields: the standard output of a run that exited
/// with zero, decoded leniently; in every other case the program counts as
/// not found.
pub open spec fn probe_result(
    spawned: Result<ExecutionOutcome, std::io::Error>,
    r: Result<String, GhError>,
) -> bool {
    match spawned {
        Ok(out) if out.succeeded() => r matches Ok(text) && text@ == lossy_text(out.stdout@),
        _ => r matches Err(err) && err@ == GhErrorView::GhNotFound,
    }
}

/// A run that exits with zero and whose standard output is UTF-8 yields that
/// output, character for character, and no error.
pub proof fn lemma_success_yields_stdout(out: ExecutionOutcome, r: Result<String, GhError>)
    requires
        out.succeeded(),
        valid_utf8(out.stdout@),
        run_result(Ok(out), r),
    ensures
        r matches Ok(text) && text@ == decode_utf8(out.stdout@),
{
}

/// A run that exits with anything but zero yields `CommandFailed` with the
/// code it exited with and what it wrote to standard error, whatever it wrote
/// to standard output.
pub proof fn lemma_failure_carries_code_and_stderr(
    out: ExecutionOutcome,
    code: i32,
    r: Result<String, GhError>,
)
    requires
        out.code == Some(code),
        code != 0,
        run_result(Ok(out), r),
    ensures
        r matches Err(err) && err@ == (GhErrorView::CommandFailed {
            code,
            stderr: lossy_text(out.stderr@),
        }),
{
}

/// A process that could not be started is never reported as a command that
/// failed: running a command passes the platform's error on, and the version
/// probe says that the program was not found.
pub proof fn lemma_spawn_failure_is_not_command_failure(
    e: std::io::Error,
    run: Result<String, GhError>,
    probe: Result<String, GhError>,
)
    requires
        run_result(Err(e), run),
        probe_result(Err(e), probe),
    ensures
        run matches Err(err) && err@ == GhErrorView::IoError(e),
        probe matches Err(err) && err@ == GhErrorView::GhNotFound,
        !(run matches Err(GhError::CommandFailed { .. })),
        !(probe matches Err(GhError::CommandFailed { .. })),
{
}

impl GhExecutor {
    /// An executor for the binary at `gh_path`.
    pub fn new(gh_path: String) -> (r: Self)
        ensures
            r.gh_path == gh_path,
    {
        GhExecutor { gh_path }
    }

    /// The invocation that asks the binary for its version.
    pub fn version_probe(&self) -> (inv: Invocation)
        ensures
            inv@ == (InvocationView { program: self.gh_path@, args: seq!["--version"@] }),
    {
        let mut args: Vec<String> = Vec::new();
        args.push("--version".to_owned());
        let inv = Invocation { program: self.gh_path.clone(), args };
        assert(inv.args.deep_view() =~= seq!["--version"@]);
        inv
    }

    /// Reads the outcome of the version probe. `spawned` is what starting
    /// [`GhExecutor::version_probe`] and waiting for it gave.
    pub fn check_installation(&self, spawned: Result<ExecutionOutcome, std::io::Error>) -> (r:
        Result<String, GhError>)
        ensures
            probe_result(spawned, r),
    {
        match spawned {
            Ok(output) => {
                if output.success() {
                    Ok(decode_lossy(output.stdout.as_slice()))
                } else {
                    Err(GhError::GhNotFound)
                }
            },
            Err(_) => Err(GhError::GhNotFound),
        }
    }

    /// The invocation that hands `args` to the binary.
    pub fn invocation(&self, args: &[String]) -> (inv: Invocation)
        ensures
            inv@ == (InvocationView { program: self.gh_path@, args: args.deep_view() }),
    {
        Invocation { program: self.gh_path.clone(), args: copy_tokens(args) }
    }

    /// Reads the outcome of a command. `spawned` is what starting
    /// [`GhExecutor::invocation`] with both output streams captured and
    /// waiting for it gave.
    pub fn execute(&self, spawned: Result<ExecutionOutcome, std::io::Error>) -> (r: Result<
        String,
        GhError,
    >)
        ensures
            run_result(spawned, r),
    {
        match spawned {
            Err(e) => Err(GhError::IoError(e)),
            Ok(output) => {
                if output.success() {
                    match decode_strict(output.stdout) {
                        Ok(text) => Ok(text),
                        Err(e) => Err(GhError::Utf8Error(e)),
                    }
                } else {
                    Err(GhError::from_output(output))
                }
            },
        }
    }
}

} // verus!
