//! The client: the one place where the program is chosen, and the door to
//! every command.

use crate::commands::issue::IssueCommands;
use crate::commands::pr::PrCommands;
use crate::commands::repo::RepoCommands;
use crate::error::GhError;
use crate::executor::{probe_result, share, GhExecutor};
use crate::process::{ExecutionOutcome, Invocation, InvocationView};
use std::sync::Arc;
use vstd::prelude::*;

verus! {

/// A client of the tool. All commands made through one client share its
/// executor, which nothing changes once the client exists.
pub struct GhClient {
    executor: Arc<GhExecutor>,
}

impl Clone for GhClient {
    fn clone(&self) -> (r: Self)
        ensures
            r.program() == self.program(),
    {
        GhClient { executor: share(&self.executor) }
    }
}

impl Default for GhClient {
    fn default() -> (c: Self)
        ensures
            c.program() == "gh"@,
    {
        GhClient::new()
    }
}

impl GhClient {
    /// The program that this client's commands are handed to.
    pub closed spec fn program(&self) -> Seq<char> {
        self.executor.gh_path@
    }

    /// A client that starts `gh` from the search path.
    pub fn new() -> (c: Self)
        ensures
            c.program() == "gh"@,
    {
        GhClient { executor: Arc::new(GhExecutor::default()) }
    }

    /// Starts the configuration of a client.
    pub fn builder() -> (b: GhClientBuilder)
        ensures
            b@ is None,
    {
        GhClientBuilder::new()
    }

    /// A handle to the executor that this client shares with its commands.
    pub fn executor(&self) -> (e: Arc<GhExecutor>)
        ensures
            e.gh_path@ == self.program(),
    {
        share(&self.executor)
    }

    /// The invocation that asks the tool for its version.
    pub fn version_probe(&self) -> (inv: Invocation)
        ensures
            inv@ == (InvocationView { program: self.program(), args: seq!["--version"@] }),
    {
        self.executor.version_probe()
    }

    /// Says whether the tool is installed, from the outcome of
    /// [`GhClient::version_probe`]: its version text if the probe ran and
    /// exited with zero, and `GhNotFound` in every other case.
    pub fn check_installation(&self, spawned: Result<ExecutionOutcome, std::io::Error>) -> (r:
        Result<String, GhError>)
        ensures
            probe_result(spawned, r),
    {
        self.executor.check_installation(spawned)
    }

    /// The commands on repositories.
    pub fn repo(&self) -> (r: RepoCommands)
        ensures
            r.program() == self.program(),
    {
        RepoCommands::new(share(&self.executor))
    }

    /// The commands on pull requests.
    pub fn pr(&self) -> (r: PrCommands)
        ensures
            r.program() == self.program(),
    {
        PrCommands::new(share(&self.executor))
    }

    /// The commands on issues.
    pub fn issue(&self) -> (r: IssueCommands)
        ensures
            r.program() == self.program(),
    {
        IssueCommands::new(share(&self.executor))
    }
}

/// Configures a client step by step.
pub struct GhClientBuilder {
    gh_path: Option<String>,
}

impl View for GhClientBuilder {
    type V = Option<Seq<char>>;

    /// The path that was chosen, if one was.
    closed spec fn view(&self) -> Option<Seq<char>> {
        match self.gh_path {
            Some(path) => Some(path@),
            None => None,
        }
    }
}

impl Default for GhClientBuilder {
    fn default() -> (b: Self)
        ensures
            b@ is None,
    {
        GhClientBuilder::new()
    }
}

impl GhClientBuilder {
    /// A builder with nothing chosen yet.
    pub fn new() -> (b: Self)
        ensures
            b@ is None,
    {
        GhClientBuilder { gh_path: None }
    }

    /// Chooses the binary at `path`. A later choice replaces an earlier one.
    pub fn gh_path(self, path: &str) -> (b: Self)
        ensures
            b@ == Some(path@),
    {
        GhClientBuilder { gh_path: Some(path.to_owned()) }
    }

    /// The client: with the chosen binary, or with `gh` from the search path
    /// where none was chosen.
    pub fn build(self) -> (c: GhClient)
        ensures
            c.program() == match self@ {
                Some(path) => path,
                None => "gh"@,
            },
    {
        let executor = match self.gh_path {
            Some(gh_path) => Arc::new(GhExecutor::new(gh_path)),
            None => Arc::new(GhExecutor::default()),
        };
        GhClient { executor }
    }
}

} // verus!
