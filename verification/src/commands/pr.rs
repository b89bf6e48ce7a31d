//! Commands on pull requests.

use crate::command::{BaseCommand, CommandBuilder, GhCommand};
use crate::commands::{subcommand, subcommand_on_number};
use crate::error::GhError;
use crate::executor::{run_result, share, GhExecutor};
use crate::process::{ExecutionOutcome, Invocation, InvocationView};
use crate::text::{decimal, decimal_string};
use std::sync::Arc;
use vstd::prelude::*;

verus! {

/// The pull-request commands of one client.
pub struct PrCommands {
    executor: Arc<GhExecutor>,
}

impl Clone for PrCommands {
    fn clone(&self) -> (r: Self)
        ensures
            r.program() == self.program(),
    {
        PrCommands { executor: share(&self.executor) }
    }
}

impl PrCommands {
    /// The program that every command made here is handed to.
    pub closed spec fn program(&self) -> Seq<char> {
        self.executor.gh_path@
    }

    pub(crate) fn new(executor: Arc<GhExecutor>) -> (r: Self)
        ensures
            r.program() == executor.gh_path@,
    {
        PrCommands { executor }
    }

    /// Opens a new pull request.
    pub fn create(&self) -> (c: PrCreateCommand)
        ensures
            c@ == (InvocationView { program: self.program(), args: seq!["pr"@, "create"@] }),
    {
        PrCreateCommand::new(share(&self.executor))
    }

    /// Lists pull requests.
    pub fn list(&self) -> (c: PrListCommand)
        ensures
            c@ == (InvocationView { program: self.program(), args: seq!["pr"@, "list"@] }),
    {
        PrListCommand::new(share(&self.executor))
    }

    /// Shows the pull request with this number.
    pub fn view(&self, number: u32) -> (c: PrViewCommand)
        ensures
            c@ == (InvocationView {
                program: self.program(),
                args: seq!["pr"@, "view"@, decimal(number as nat)],
            }),
    {
        PrViewCommand::new(share(&self.executor), number)
    }

    /// Checks out the branch of the pull request with this number.
    pub fn checkout(&self, number: u32) -> (c: PrCheckoutCommand)
        ensures
            c@ == (InvocationView {
                program: self.program(),
                args: seq!["pr"@, "checkout"@, decimal(number as nat)],
            }),
    {
        PrCheckoutCommand::new(share(&self.executor), number)
    }

    /// Merges the pull request with this number.
    pub fn merge(&self, number: u32) -> (c: PrMergeCommand)
        ensures
            c@ == (InvocationView {
                program: self.program(),
                args: seq!["pr"@, "merge"@, decimal(number as nat)],
            }),
    {
        PrMergeCommand::new(share(&self.executor), number)
    }

    /// Closes the pull request with this number.
    pub fn close(&self, number: u32) -> (c: PrCloseCommand)
        ensures
            c@ == (InvocationView {
                program: self.program(),
                args: seq!["pr"@, "close"@, decimal(number as nat)],
            }),
    {
        PrCloseCommand::new(share(&self.executor), number)
    }
}

/// `gh pr create`: opens a pull request.
pub struct PrCreateCommand {
    executor: Arc<GhExecutor>,
    cmd: BaseCommand,
}

impl View for PrCreateCommand {
    type V = InvocationView;

    closed spec fn view(&self) -> InvocationView {
        InvocationView { program: self.executor.gh_path@, args: self.cmd@ }
    }
}

impl PrCreateCommand {
    fn new(executor: Arc<GhExecutor>) -> (c: Self)
        ensures
            c@ == (InvocationView { program: executor.gh_path@, args: seq!["pr"@, "create"@] }),
    {
        PrCreateCommand { executor, cmd: subcommand("pr", "create") }
    }

    /// The title of the pull request.
    pub fn title(self, title: &str) -> (r: Self)
        ensures
            r@ == self@.option("--title"@, title@),
    {
        PrCreateCommand { executor: self.executor, cmd: self.cmd.option("--title", title) }
    }

    /// The description of the pull request.
    pub fn body(self, body: &str) -> (r: Self)
        ensures
            r@ == self@.option("--body"@, body@),
    {
        PrCreateCommand { executor: self.executor, cmd: self.cmd.option("--body", body) }
    }

    /// The branch that the changes are to be merged into.
    pub fn base(self, base: &str) -> (r: Self)
        ensures
            r@ == self@.option("--base"@, base@),
    {
        PrCreateCommand { executor: self.executor, cmd: self.cmd.option("--base", base) }
    }

    /// The branch that holds the changes.
    pub fn head(self, head: &str) -> (r: Self)
        ensures
            r@ == self@.option("--head"@, head@),
    {
        PrCreateCommand { executor: self.executor, cmd: self.cmd.option("--head", head) }
    }

    /// Opens the pull request as a draft.
    pub fn draft(self) -> (r: Self)
        ensures
            r@ == self@.flag("--draft"@),
    {
        PrCreateCommand { executor: self.executor, cmd: self.cmd.flag("--draft") }
    }

    /// Continues in the browser.
    pub fn web(self) -> (r: Self)
        ensures
            r@ == self@.flag("--web"@),
    {
        PrCreateCommand { executor: self.executor, cmd: self.cmd.flag("--web") }
    }

    /// The process to start for this command.
    pub fn invocation(&self) -> (inv: Invocation)
        ensures
            inv@ == self@,
    {
        GhCommand::invocation(self, &self.executor)
    }

    /// Reads the outcome of the finished process. `spawned` is what starting
    /// [`PrCreateCommand::invocation`] with both output streams captured and
    /// waiting for it gave.
    pub fn execute(&self, spawned: Result<ExecutionOutcome, std::io::Error>) -> (r: Result<
        String,
        GhError,
    >)
        ensures
            run_result(spawned, r),
    {
        GhCommand::execute(self, &self.executor, spawned)
    }
}

impl GhCommand for PrCreateCommand {
    open spec fn tokens(&self) -> Seq<Seq<char>> {
        self@.args
    }

    fn build_args(&self) -> (args: Vec<String>)
        ensures
            args.deep_view() == self@.args,
    {
        self.cmd.build_args()
    }
}

/// `gh pr list`: lists pull requests.
pub struct PrListCommand {
    executor: Arc<GhExecutor>,
    cmd: BaseCommand,
}

impl View for PrListCommand {
    type V = InvocationView;

    closed spec fn view(&self) -> InvocationView {
        InvocationView { program: self.executor.gh_path@, args: self.cmd@ }
    }
}

impl PrListCommand {
    fn new(executor: Arc<GhExecutor>) -> (c: Self)
        ensures
            c@ == (InvocationView { program: executor.gh_path@, args: seq!["pr"@, "list"@] }),
    {
        PrListCommand { executor, cmd: subcommand("pr", "list") }
    }

    /// Keeps the pull requests in `state`: open, closed, merged or all.
    pub fn state(self, state: &str) -> (r: Self)
        ensures
            r@ == self@.option("--state"@, state@),
    {
        PrListCommand { executor: self.executor, cmd: self.cmd.option("--state", state) }
    }

    /// Asks for at most `limit` pull requests.
    pub fn limit(self, limit: u32) -> (r: Self)
        ensures
            r@ == self@.option("--limit"@, decimal(limit as nat)),
    {
        let numeral = decimal_string(limit);
        PrListCommand { executor: self.executor, cmd: self.cmd.option("--limit", numeral.as_str()) }
    }

    /// Keeps the pull requests opened by `author`.
    pub fn author(self, author: &str) -> (r: Self)
        ensures
            r@ == self@.option("--author"@, author@),
    {
        PrListCommand { executor: self.executor, cmd: self.cmd.option("--author", author) }
    }

    /// The process to start for this command.
    pub fn invocation(&self) -> (inv: Invocation)
        ensures
            inv@ == self@,
    {
        GhCommand::invocation(self, &self.executor)
    }

    /// Reads the outcome of the finished process. `spawned` is what starting
    /// [`PrListCommand::invocation`] with both output streams captured and
    /// waiting for it gave.
    pub fn execute(&self, spawned: Result<ExecutionOutcome, std::io::Error>) -> (r: Result<
        String,
        GhError,
    >)
        ensures
            run_result(spawned, r),
    {
        GhCommand::execute(self, &self.executor, spawned)
    }
}

impl GhCommand for PrListCommand {
    open spec fn tokens(&self) -> Seq<Seq<char>> {
        self@.args
    }

    fn build_args(&self) -> (args: Vec<String>)
        ensures
            args.deep_view() == self@.args,
    {
        self.cmd.build_args()
    }
}

/// `gh pr view`: shows one pull request.
pub struct PrViewCommand {
    executor: Arc<GhExecutor>,
    cmd: BaseCommand,
}

impl View for PrViewCommand {
    type V = InvocationView;

    closed spec fn view(&self) -> InvocationView {
        InvocationView { program: self.executor.gh_path@, args: self.cmd@ }
    }
}

impl PrViewCommand {
    fn new(executor: Arc<GhExecutor>, number: u32) -> (c: Self)
        ensures
            c@ == (InvocationView {
                program: executor.gh_path@,
                args: seq!["pr"@, "view"@, decimal(number as nat)],
            }),
    {
        PrViewCommand { executor, cmd: subcommand_on_number("pr", "view", number) }
    }

    /// Shows the pull request in the browser.
    pub fn web(self) -> (r: Self)
        ensures
            r@ == self@.flag("--web"@),
    {
        PrViewCommand { executor: self.executor, cmd: self.cmd.flag("--web") }
    }

    /// The process to start for this command.
    pub fn invocation(&self) -> (inv: Invocation)
        ensures
            inv@ == self@,
    {
        GhCommand::invocation(self, &self.executor)
    }

    /// Reads the outcome of the finished process. `spawned` is what starting
    /// [`PrViewCommand::invocation`] with both output streams captured and
    /// waiting for it gave.
    pub fn execute(&self, spawned: Result<ExecutionOutcome, std::io::Error>) -> (r: Result<
        String,
        GhError,
    >)
        ensures
            run_result(spawned, r),
    {
        GhCommand::execute(self, &self.executor, spawned)
    }
}

impl GhCommand for PrViewCommand {
    open spec fn tokens(&self) -> Seq<Seq<char>> {
        self@.args
    }

    fn build_args(&self) -> (args: Vec<String>)
        ensures
            args.deep_view() == self@.args,
    {
        self.cmd.build_args()
    }
}

/// `gh pr checkout`: checks out the branch of one pull request.
pub struct PrCheckoutCommand {
    executor: Arc<GhExecutor>,
    cmd: BaseCommand,
}

impl View for PrCheckoutCommand {
    type V = InvocationView;

    closed spec fn view(&self) -> InvocationView {
        InvocationView { program: self.executor.gh_path@, args: self.cmd@ }
    }
}

impl PrCheckoutCommand {
    fn new(executor: Arc<GhExecutor>, number: u32) -> (c: Self)
        ensures
            c@ == (InvocationView {
                program: executor.gh_path@,
                args: seq!["pr"@, "checkout"@, decimal(number as nat)],
            }),
    {
        PrCheckoutCommand { executor, cmd: subcommand_on_number("pr", "checkout", number) }
    }

    /// The process to start for this command.
    pub fn invocation(&self) -> (inv: Invocation)
        ensures
            inv@ == self@,
    {
        GhCommand::invocation(self, &self.executor)
    }

    /// Reads the outcome of the finished process. `spawned` is what starting
    /// [`PrCheckoutCommand::invocation`] with both output streams captured and
    /// waiting for it gave.
    pub fn execute(&self, spawned: Result<ExecutionOutcome, std::io::Error>) -> (r: Result<
        String,
        GhError,
    >)
        ensures
            run_result(spawned, r),
    {
        GhCommand::execute(self, &self.executor, spawned)
    }
}

impl GhCommand for PrCheckoutCommand {
    open spec fn tokens(&self) -> Seq<Seq<char>> {
        self@.args
    }

    fn build_args(&self) -> (args: Vec<String>)
        ensures
            args.deep_view() == self@.args,
    {
        self.cmd.build_args()
    }
}

/// `gh pr merge`: merges one pull request. Running it twice asks for two merges.
pub struct PrMergeCommand {
    executor: Arc<GhExecutor>,
    cmd: BaseCommand,
}

impl View for PrMergeCommand {
    type V = InvocationView;

    closed spec fn view(&self) -> InvocationView {
        InvocationView { program: self.executor.gh_path@, args: self.cmd@ }
    }
}

impl PrMergeCommand {
    fn new(executor: Arc<GhExecutor>, number: u32) -> (c: Self)
        ensures
            c@ == (InvocationView {
                program: executor.gh_path@,
                args: seq!["pr"@, "merge"@, decimal(number as nat)],
            }),
    {
        PrMergeCommand { executor, cmd: subcommand_on_number("pr", "merge", number) }
    }

    /// Merges with a merge commit.
    pub fn merge(self) -> (r: Self)
        ensures
            r@ == self@.flag("--merge"@),
    {
        PrMergeCommand { executor: self.executor, cmd: self.cmd.flag("--merge") }
    }

    /// Squashes the commits into one and merges that.
    pub fn squash(self) -> (r: Self)
        ensures
            r@ == self@.flag("--squash"@),
    {
        PrMergeCommand { executor: self.executor, cmd: self.cmd.flag("--squash") }
    }

    /// Rebases the commits onto the base branch.
    pub fn rebase(self) -> (r: Self)
        ensures
            r@ == self@.flag("--rebase"@),
    {
        PrMergeCommand { executor: self.executor, cmd: self.cmd.flag("--rebase") }
    }

    /// Merges by itself once every requirement is met.
    pub fn auto(self) -> (r: Self)
        ensures
            r@ == self@.flag("--auto"@),
    {
        PrMergeCommand { executor: self.executor, cmd: self.cmd.flag("--auto") }
    }

    /// The process to start for this command.
    pub fn invocation(&self) -> (inv: Invocation)
        ensures
            inv@ == self@,
    {
        GhCommand::invocation(self, &self.executor)
    }

    /// Reads the outcome of the finished process. `spawned` is what starting
    /// [`PrMergeCommand::invocation`] with both output streams captured and
    /// waiting for it gave.
    pub fn execute(&self, spawned: Result<ExecutionOutcome, std::io::Error>) -> (r: Result<
        String,
        GhError,
    >)
        ensures
            run_result(spawned, r),
    {
        GhCommand::execute(self, &self.executor, spawned)
    }
}

impl GhCommand for PrMergeCommand {
    open spec fn tokens(&self) -> Seq<Seq<char>> {
        self@.args
    }

    fn build_args(&self) -> (args: Vec<String>)
        ensures
            args.deep_view() == self@.args,
    {
        self.cmd.build_args()
    }
}

/// `gh pr close`: closes one pull request without merging it.
pub struct PrCloseCommand {
    executor: Arc<GhExecutor>,
    cmd: BaseCommand,
}

impl View for PrCloseCommand {
    type V = InvocationView;

    closed spec fn view(&self) -> InvocationView {
        InvocationView { program: self.executor.gh_path@, args: self.cmd@ }
    }
}

impl PrCloseCommand {
    fn new(executor: Arc<GhExecutor>, number: u32) -> (c: Self)
        ensures
            c@ == (InvocationView {
                program: executor.gh_path@,
                args: seq!["pr"@, "close"@, decimal(number as nat)],
            }),
    {
        PrCloseCommand { executor, cmd: subcommand_on_number("pr", "close", number) }
    }

    /// Deletes the branch once the pull request is closed.
    pub fn delete_branch(self) -> (r: Self)
        ensures
            r@ == self@.flag("--delete-branch"@),
    {
        PrCloseCommand { executor: self.executor, cmd: self.cmd.flag("--delete-branch") }
    }

    /// The process to start for this command.
    pub fn invocation(&self) -> (inv: Invocation)
        ensures
            inv@ == self@,
    {
        GhCommand::invocation(self, &self.executor)
    }

    /// Reads the outcome of the finished process. `spawned` is what starting
    /// [`PrCloseCommand::invocation`] with both output streams captured and
    /// waiting for it gave.
    pub fn execute(&self, spawned: Result<ExecutionOutcome, std::io::Error>) -> (r: Result<
        String,
        GhError,
    >)
        ensures
            run_result(spawned, r),
    {
        GhCommand::execute(self, &self.executor, spawned)
    }
}

impl GhCommand for PrCloseCommand {
    open spec fn tokens(&self) -> Seq<Seq<char>> {
        self@.args
    }

    fn build_args(&self) -> (args: Vec<String>)
        ensures
            args.deep_view() == self@.args,
    {
        self.cmd.build_args()
    }
}

} // verus!
