//! Commands on repositories.

use crate::command::{BaseCommand, CommandBuilder, GhCommand};
use crate::commands::{subcommand, subcommand_on};
use crate::error::GhError;
use crate::executor::{run_result, share, GhExecutor};
use crate::process::{ExecutionOutcome, Invocation, InvocationView};
use crate::text::{decimal, decimal_string};
use std::sync::Arc;
use vstd::prelude::*;

verus! {

/// The repository commands of one client.
#[derive(Clone)]
pub struct RepoCommands {
    executor: Arc<GhExecutor>,
}

impl RepoCommands {
    /// The program that every command made here is handed to.
    pub closed spec fn program(&self) -> Seq<char> {
        self.executor.gh_path@
    }

    pub(crate) fn new(executor: Arc<GhExecutor>) -> (r: Self)
        ensures
            r.program() == executor.gh_path@,
    {
        RepoCommands { executor }
    }

    /// Clones the repository `repo`, given as `owner/name`.
    pub fn clone(&self, repo: &str) -> (c: RepoCloneCommand)
        ensures
            c@ == (InvocationView {
                program: self.program(),
                args: seq!["repo"@, "clone"@, repo@],
            }),
    {
        RepoCloneCommand::new(share(&self.executor), repo)
    }

    /// Creates a repository called `name`.
    pub fn create(&self, name: &str) -> (c: RepoCreateCommand)
        ensures
            c@ == (InvocationView {
                program: self.program(),
                args: seq!["repo"@, "create"@, name@],
            }),
    {
        RepoCreateCommand::new(share(&self.executor), name)
    }

    /// Forks the repository `repo`, given as `owner/name`.
    pub fn fork(&self, repo: &str) -> (c: RepoForkCommand)
        ensures
            c@ == (InvocationView { program: self.program(), args: seq!["repo"@, "fork"@, repo@] }),
    {
        RepoForkCommand::new(share(&self.executor), repo)
    }

    /// Lists repositories.
    pub fn list(&self) -> (c: RepoListCommand)
        ensures
            c@ == (InvocationView { program: self.program(), args: seq!["repo"@, "list"@] }),
    {
        RepoListCommand::new(share(&self.executor))
    }

    /// Shows the repository `repo`, or with `None` the repository of the working directory.
    pub fn view(&self, repo: Option<&str>) -> (c: RepoViewCommand)
        ensures
            c@ == (InvocationView {
                program: self.program(),
                args: match repo {
                    Some(name) => seq!["repo"@, "view"@, name@],
                    None => seq!["repo"@, "view"@],
                },
            }),
    {
        RepoViewCommand::new(share(&self.executor), repo)
    }
}

/// `gh repo clone`: clones a repository to this machine.
pub struct RepoCloneCommand {
    executor: Arc<GhExecutor>,
    cmd: BaseCommand,
}

impl View for RepoCloneCommand {
    type V = InvocationView;

    closed spec fn view(&self) -> InvocationView {
        InvocationView { program: self.executor.gh_path@, args: self.cmd@ }
    }
}

impl RepoCloneCommand {
    fn new(executor: Arc<GhExecutor>, repo: &str) -> (c: Self)
        ensures
            c@ == (InvocationView {
                program: executor.gh_path@,
                args: seq!["repo"@, "clone"@, repo@],
            }),
    {
        RepoCloneCommand { executor, cmd: subcommand_on("repo", "clone", repo) }
    }

    /// The process to start for this command.
    pub fn invocation(&self) -> (inv: Invocation)
        ensures
            inv@ == self@,
    {
        GhCommand::invocation(self, &self.executor)
    }

    /// Reads the outcome of the finished process. `spawned` is what starting
    /// [`RepoCloneCommand::invocation`] with both output streams captured and
    /// waiting for it gave.
    pub fn execute(&self, spawned: Result<ExecutionOutcome, std::io::Error>) -> (r: Result<
        String,
        GhError,
    >)
        ensures
            run_result(spawned, r),
    {
        GhCommand::execute(self, &self.executor, spawned)
    }
}

impl GhCommand for RepoCloneCommand {
    open spec fn tokens(&self) -> Seq<Seq<char>> {
        self@.args
    }

    fn build_args(&self) -> (args: Vec<String>)
        ensures
            args.deep_view() == self@.args,
    {
        self.cmd.build_args()
    }
}

/// `gh repo create`: creates a repository. Running it twice asks for two repositories.
pub struct RepoCreateCommand {
    executor: Arc<GhExecutor>,
    cmd: BaseCommand,
}

impl View for RepoCreateCommand {
    type V = InvocationView;

    closed spec fn view(&self) -> InvocationView {
        InvocationView { program: self.executor.gh_path@, args: self.cmd@ }
    }
}

impl RepoCreateCommand {
    fn new(executor: Arc<GhExecutor>, name: &str) -> (c: Self)
        ensures
            c@ == (InvocationView {
                program: executor.gh_path@,
                args: seq!["repo"@, "create"@, name@],
            }),
    {
        RepoCreateCommand { executor, cmd: subcommand_on("repo", "create", name) }
    }

    /// Makes the repository visible to everyone.
    pub fn public(self) -> (r: Self)
        ensures
            r@ == self@.flag("--public"@),
    {
        RepoCreateCommand { executor: self.executor, cmd: self.cmd.flag("--public") }
    }

    /// Makes the repository visible to its members only.
    pub fn private(self) -> (r: Self)
        ensures
            r@ == self@.flag("--private"@),
    {
        RepoCreateCommand { executor: self.executor, cmd: self.cmd.flag("--private") }
    }

    /// A short description of the repository.
    pub fn description(self, desc: &str) -> (r: Self)
        ensures
            r@ == self@.option("--description"@, desc@),
    {
        RepoCreateCommand { executor: self.executor, cmd: self.cmd.option("--description", desc) }
    }

    /// The address of the project's home page.
    pub fn homepage(self, url: &str) -> (r: Self)
        ensures
            r@ == self@.option("--homepage"@, url@),
    {
        RepoCreateCommand { executor: self.executor, cmd: self.cmd.option("--homepage", url) }
    }

    /// Starts the repository with a README.
    pub fn with_readme(self) -> (r: Self)
        ensures
            r@ == self@.flag("--add-readme"@),
    {
        RepoCreateCommand { executor: self.executor, cmd: self.cmd.flag("--add-readme") }
    }

    /// The process to start for this command.
    pub fn invocation(&self) -> (inv: Invocation)
        ensures
            inv@ == self@,
    {
        GhCommand::invocation(self, &self.executor)
    }

    /// Reads the outcome of the finished process. `spawned` is what starting
    /// [`RepoCreateCommand::invocation`] with both output streams captured and
    /// waiting for it gave.
    pub fn execute(&self, spawned: Result<ExecutionOutcome, std::io::Error>) -> (r: Result<
        String,
        GhError,
    >)
        ensures
            run_result(spawned, r),
    {
        GhCommand::execute(self, &self.executor, spawned)
    }
}

impl GhCommand for RepoCreateCommand {
    open spec fn tokens(&self) -> Seq<Seq<char>> {
        self@.args
    }

    fn build_args(&self) -> (args: Vec<String>)
        ensures
            args.deep_view() == self@.args,
    {
        self.cmd.build_args()
    }
}

/// `gh repo fork`: forks a repository.
pub struct RepoForkCommand {
    executor: Arc<GhExecutor>,
    cmd: BaseCommand,
}

impl View for RepoForkCommand {
    type V = InvocationView;

    closed spec fn view(&self) -> InvocationView {
        InvocationView { program: self.executor.gh_path@, args: self.cmd@ }
    }
}

impl RepoForkCommand {
    fn new(executor: Arc<GhExecutor>, repo: &str) -> (c: Self)
        ensures
            c@ == (InvocationView {
                program: executor.gh_path@,
                args: seq!["repo"@, "fork"@, repo@],
            }),
    {
        RepoForkCommand { executor, cmd: subcommand_on("repo", "fork", repo) }
    }

    /// Clones the fork once it exists.
    pub fn clone(self) -> (r: Self)
        ensures
            r@ == self@.flag("--clone"@),
    {
        RepoForkCommand { executor: self.executor, cmd: self.cmd.flag("--clone") }
    }

    /// The process to start for this command.
    pub fn invocation(&self) -> (inv: Invocation)
        ensures
            inv@ == self@,
    {
        GhCommand::invocation(self, &self.executor)
    }

    /// Reads the outcome of the finished process. `spawned` is what starting
    /// [`RepoForkCommand::invocation`] with both output streams captured and
    /// waiting for it gave.
    pub fn execute(&self, spawned: Result<ExecutionOutcome, std::io::Error>) -> (r: Result<
        String,
        GhError,
    >)
        ensures
            run_result(spawned, r),
    {
        GhCommand::execute(self, &self.executor, spawned)
    }
}

impl GhCommand for RepoForkCommand {
    open spec fn tokens(&self) -> Seq<Seq<char>> {
        self@.args
    }

    fn build_args(&self) -> (args: Vec<String>)
        ensures
            args.deep_view() == self@.args,
    {
        self.cmd.build_args()
    }
}

/// A repository, with the fields that the tool reports.
#[derive(Debug)]
pub struct Repository {
    pub name: String,
    pub name_with_owner: String,
    pub description: Option<String>,
    pub url: String,
    pub is_private: bool,
    pub is_fork: bool,
    pub created_at: String,
    pub updated_at: String,
}

/// `gh repo list`: lists repositories.
pub struct RepoListCommand {
    executor: Arc<GhExecutor>,
    cmd: BaseCommand,
}

impl View for RepoListCommand {
    type V = InvocationView;

    closed spec fn view(&self) -> InvocationView {
        InvocationView { program: self.executor.gh_path@, args: self.cmd@ }
    }
}

impl RepoListCommand {
    fn new(executor: Arc<GhExecutor>) -> (c: Self)
        ensures
            c@ == (InvocationView { program: executor.gh_path@, args: seq!["repo"@, "list"@] }),
    {
        RepoListCommand { executor, cmd: subcommand("repo", "list") }
    }

    /// Lists the repositories of `owner` instead of one's own.
    pub fn owner(self, owner: &str) -> (r: Self)
        ensures
            r@ == self@.arg(owner@),
    {
        RepoListCommand { executor: self.executor, cmd: self.cmd.arg(owner) }
    }

    /// Asks for at most `limit` repositories.
    pub fn limit(self, limit: u32) -> (r: Self)
        ensures
            r@ == self@.option("--limit"@, decimal(limit as nat)),
    {
        let numeral = decimal_string(limit);
        RepoListCommand {
            executor: self.executor,
            cmd: self.cmd.option("--limit", numeral.as_str()),
        }
    }

    /// The process to start for this command.
    pub fn invocation(&self) -> (inv: Invocation)
        ensures
            inv@ == self@,
    {
        GhCommand::invocation(self, &self.executor)
    }

    /// Reads the outcome of the finished process. `spawned` is what starting
    /// [`RepoListCommand::invocation`] with both output streams captured and
    /// waiting for it gave.
    pub fn execute(&self, spawned: Result<ExecutionOutcome, std::io::Error>) -> (r: Result<
        String,
        GhError,
    >)
        ensures
            run_result(spawned, r),
    {
        GhCommand::execute(self, &self.executor, spawned)
    }
}

impl GhCommand for RepoListCommand {
    open spec fn tokens(&self) -> Seq<Seq<char>> {
        self@.args
    }

    fn build_args(&self) -> (args: Vec<String>)
        ensures
            args.deep_view() == self@.args,
    {
        self.cmd.build_args()
    }
}

/// `gh repo view`: shows one repository.
pub struct RepoViewCommand {
    executor: Arc<GhExecutor>,
    cmd: BaseCommand,
}

impl View for RepoViewCommand {
    type V = InvocationView;

    closed spec fn view(&self) -> InvocationView {
        InvocationView { program: self.executor.gh_path@, args: self.cmd@ }
    }
}

impl RepoViewCommand {
    fn new(executor: Arc<GhExecutor>, repo: Option<&str>) -> (c: Self)
        ensures
            c@ == (InvocationView {
                program: executor.gh_path@,
                args: match repo {
                    Some(name) => seq!["repo"@, "view"@, name@],
                    None => seq!["repo"@, "view"@],
                },
            }),
    {
        let cmd = match repo {
            Some(name) => subcommand_on("repo", "view", name),
            None => subcommand("repo", "view"),
        };
        RepoViewCommand { executor, cmd }
    }

    /// Shows the repository in the browser.
    pub fn web(self) -> (r: Self)
        ensures
            r@ == self@.flag("--web"@),
    {
        RepoViewCommand { executor: self.executor, cmd: self.cmd.flag("--web") }
    }

    /// The process to start for this command.
    pub fn invocation(&self) -> (inv: Invocation)
        ensures
            inv@ == self@,
    {
        GhCommand::invocation(self, &self.executor)
    }

    /// Reads the outcome of the finished process. `spawned` is what starting
    /// [`RepoViewCommand::invocation`] with both output streams captured and
    /// waiting for it gave.
    pub fn execute(&self, spawned: Result<ExecutionOutcome, std::io::Error>) -> (r: Result<
        String,
        GhError,
    >)
        ensures
            run_result(spawned, r),
    {
        GhCommand::execute(self, &self.executor, spawned)
    }
}

impl GhCommand for RepoViewCommand {
    open spec fn tokens(&self) -> Seq<Seq<char>> {
        self@.args
    }

    fn build_args(&self) -> (args: Vec<String>)
        ensures
            args.deep_view() == self@.args,
    {
        self.cmd.build_args()
    }
}

} // verus!
