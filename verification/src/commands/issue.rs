//! Commands on issues.

use crate::command::{BaseCommand, CommandBuilder, GhCommand};
use crate::commands::{subcommand, subcommand_on_number};
use crate::error::GhError;
use crate::executor::{run_result, share, GhExecutor};
use crate::process::{ExecutionOutcome, Invocation, InvocationView};
use crate::text::{decimal, decimal_string};
use std::sync::Arc;
use vstd::prelude::*;

verus! {

/// The issue commands of one client.
pub struct IssueCommands {
    executor: Arc<GhExecutor>,
}

impl Clone for IssueCommands {
    fn clone(&self) -> (r: Self)
        ensures
            r.program() == self.program(),
    {
        IssueCommands { executor: share(&self.executor) }
    }
}

impl IssueCommands {
    /// The program that every command made here is handed to.
    pub closed spec fn program(&self) -> Seq<char> {
        self.executor.gh_path@
    }

    pub(crate) fn new(executor: Arc<GhExecutor>) -> (r: Self)
        ensures
            r.program() == executor.gh_path@,
    {
        IssueCommands { executor }
    }

    /// Files a new issue.
    pub fn create(&self) -> (c: IssueCreateCommand)
        ensures
            c@ == (InvocationView { program: self.program(), args: seq!["issue"@, "create"@] }),
    {
        IssueCreateCommand::new(share(&self.executor))
    }

    /// Lists issues.
    pub fn list(&self) -> (c: IssueListCommand)
        ensures
            c@ == (InvocationView { program: self.program(), args: seq!["issue"@, "list"@] }),
    {
        IssueListCommand::new(share(&self.executor))
    }

    /// Shows the issue with this number.
    pub fn view(&self, number: u32) -> (c: IssueViewCommand)
        ensures
            c@ == (InvocationView {
                program: self.program(),
                args: seq!["issue"@, "view"@, decimal(number as nat)],
            }),
    {
        IssueViewCommand::new(share(&self.executor), number)
    }

    /// Closes the issue with this number.
    pub fn close(&self, number: u32) -> (c: IssueCloseCommand)
        ensures
            c@ == (InvocationView {
                program: self.program(),
                args: seq!["issue"@, "close"@, decimal(number as nat)],
            }),
    {
        IssueCloseCommand::new(share(&self.executor), number)
    }

    /// Opens the issue with this number again.
    pub fn reopen(&self, number: u32) -> (c: IssueReopenCommand)
        ensures
            c@ == (InvocationView {
                program: self.program(),
                args: seq!["issue"@, "reopen"@, decimal(number as nat)],
            }),
    {
        IssueReopenCommand::new(share(&self.executor), number)
    }
}

/// An issue, with the fields that the tool reports.
#[derive(Debug)]
pub struct Issue {
    pub number: u32,
    pub title: String,
    pub state: String,
    pub url: String,
    pub created_at: String,
    pub updated_at: String,
    pub author: Author,
}

/// The user behind an issue.
#[derive(Debug)]
pub struct Author {
    pub login: String,
}

/// `gh issue create`: files an issue.
pub struct IssueCreateCommand {
    executor: Arc<GhExecutor>,
    cmd: BaseCommand,
}

impl View for IssueCreateCommand {
    type V = InvocationView;

    closed spec fn view(&self) -> InvocationView {
        InvocationView { program: self.executor.gh_path@, args: self.cmd@ }
    }
}

impl IssueCreateCommand {
    fn new(executor: Arc<GhExecutor>) -> (c: Self)
        ensures
            c@ == (InvocationView { program: executor.gh_path@, args: seq!["issue"@, "create"@] }),
    {
        IssueCreateCommand { executor, cmd: subcommand("issue", "create") }
    }

    /// The title of the issue.
    pub fn title(self, title: &str) -> (r: Self)
        ensures
            r@ == self@.option("--title"@, title@),
    {
        IssueCreateCommand { executor: self.executor, cmd: self.cmd.option("--title", title) }
    }

    /// The text of the issue.
    pub fn body(self, body: &str) -> (r: Self)
        ensures
            r@ == self@.option("--body"@, body@),
    {
        IssueCreateCommand { executor: self.executor, cmd: self.cmd.option("--body", body) }
    }

    /// Adds a label. Call it once for each label.
    pub fn label(self, label: &str) -> (r: Self)
        ensures
            r@ == self@.option("--label"@, label@),
    {
        IssueCreateCommand { executor: self.executor, cmd: self.cmd.option("--label", label) }
    }

    /// Assigns the issue to a user.
    pub fn assignee(self, assignee: &str) -> (r: Self)
        ensures
            r@ == self@.option("--assignee"@, assignee@),
    {
        IssueCreateCommand { executor: self.executor, cmd: self.cmd.option("--assignee", assignee) }
    }

    /// Continues in the browser.
    pub fn web(self) -> (r: Self)
        ensures
            r@ == self@.flag("--web"@),
    {
        IssueCreateCommand { executor: self.executor, cmd: self.cmd.flag("--web") }
    }

    /// The process to start for this command.
    pub fn invocation(&self) -> (inv: Invocation)
        ensures
            inv@ == self@,
    {
        GhCommand::invocation(self, &self.executor)
    }

    /// Reads the outcome of the finished process. `spawned` is what starting
    /// [`IssueCreateCommand::invocation`] with both output streams captured and
    /// waiting for it gave.
    pub fn execute(&self, spawned: Result<ExecutionOutcome, std::io::Error>) -> (r: Result<
        String,
        GhError,
    >)
        ensures
            run_result(spawned, r),
    {
        GhCommand::execute(self, &self.executor, spawned)
    }
}

impl GhCommand for IssueCreateCommand {
    open spec fn tokens(&self) -> Seq<Seq<char>> {
        self@.args
    }

    fn build_args(&self) -> (args: Vec<String>)
        ensures
            args.deep_view() == self@.args,
    {
        self.cmd.build_args()
    }
}

/// `gh issue list`: lists issues.
pub struct IssueListCommand {
    executor: Arc<GhExecutor>,
    cmd: BaseCommand,
}

impl View for IssueListCommand {
    type V = InvocationView;

    closed spec fn view(&self) -> InvocationView {
        InvocationView { program: self.executor.gh_path@, args: self.cmd@ }
    }
}

impl IssueListCommand {
    fn new(executor: Arc<GhExecutor>) -> (c: Self)
        ensures
            c@ == (InvocationView { program: executor.gh_path@, args: seq!["issue"@, "list"@] }),
    {
        IssueListCommand { executor, cmd: subcommand("issue", "list") }
    }

    /// Keeps the issues in `state`: open, closed or all.
    pub fn state(self, state: &str) -> (r: Self)
        ensures
            r@ == self@.option("--state"@, state@),
    {
        IssueListCommand { executor: self.executor, cmd: self.cmd.option("--state", state) }
    }

    /// Asks for at most `limit` issues.
    pub fn limit(self, limit: u32) -> (r: Self)
        ensures
            r@ == self@.option("--limit"@, decimal(limit as nat)),
    {
        let numeral = decimal_string(limit);
        IssueListCommand {
            executor: self.executor,
            cmd: self.cmd.option("--limit", numeral.as_str()),
        }
    }

    /// Keeps the issues filed by `author`.
    pub fn author(self, author: &str) -> (r: Self)
        ensures
            r@ == self@.option("--author"@, author@),
    {
        IssueListCommand { executor: self.executor, cmd: self.cmd.option("--author", author) }
    }

    /// Keeps the issues assigned to `assignee`.
    pub fn assignee(self, assignee: &str) -> (r: Self)
        ensures
            r@ == self@.option("--assignee"@, assignee@),
    {
        IssueListCommand { executor: self.executor, cmd: self.cmd.option("--assignee", assignee) }
    }

    /// Keeps the issues that carry `label`.
    pub fn label(self, label: &str) -> (r: Self)
        ensures
            r@ == self@.option("--label"@, label@),
    {
        IssueListCommand { executor: self.executor, cmd: self.cmd.option("--label", label) }
    }

    /// The process to start for this command.
    pub fn invocation(&self) -> (inv: Invocation)
        ensures
            inv@ == self@,
    {
        GhCommand::invocation(self, &self.executor)
    }

    /// Reads the outcome of the finished process. `spawned` is what starting
    /// [`IssueListCommand::invocation`] with both output streams captured and
    /// waiting for it gave.
    pub fn execute(&self, spawned: Result<ExecutionOutcome, std::io::Error>) -> (r: Result<
        String,
        GhError,
    >)
        ensures
            run_result(spawned, r),
    {
        GhCommand::execute(self, &self.executor, spawned)
    }
}

impl GhCommand for IssueListCommand {
    open spec fn tokens(&self) -> Seq<Seq<char>> {
        self@.args
    }

    fn build_args(&self) -> (args: Vec<String>)
        ensures
            args.deep_view() == self@.args,
    {
        self.cmd.build_args()
    }
}

/// `gh issue view`: shows one issue.
pub struct IssueViewCommand {
    executor: Arc<GhExecutor>,
    cmd: BaseCommand,
}

impl View for IssueViewCommand {
    type V = InvocationView;

    closed spec fn view(&self) -> InvocationView {
        InvocationView { program: self.executor.gh_path@, args: self.cmd@ }
    }
}

impl IssueViewCommand {
    fn new(executor: Arc<GhExecutor>, number: u32) -> (c: Self)
        ensures
            c@ == (InvocationView {
                program: executor.gh_path@,
                args: seq!["issue"@, "view"@, decimal(number as nat)],
            }),
    {
        IssueViewCommand { executor, cmd: subcommand_on_number("issue", "view", number) }
    }

    /// Shows the issue in the browser.
    pub fn web(self) -> (r: Self)
        ensures
            r@ == self@.flag("--web"@),
    {
        IssueViewCommand { executor: self.executor, cmd: self.cmd.flag("--web") }
    }

    /// The process to start for this command.
    pub fn invocation(&self) -> (inv: Invocation)
        ensures
            inv@ == self@,
    {
        GhCommand::invocation(self, &self.executor)
    }

    /// Reads the outcome of the finished process. `spawned` is what starting
    /// [`IssueViewCommand::invocation`] with both output streams captured and
    /// waiting for it gave.
    pub fn execute(&self, spawned: Result<ExecutionOutcome, std::io::Error>) -> (r: Result<
        String,
        GhError,
    >)
        ensures
            run_result(spawned, r),
    {
        GhCommand::execute(self, &self.executor, spawned)
    }
}

impl GhCommand for IssueViewCommand {
    open spec fn tokens(&self) -> Seq<Seq<char>> {
        self@.args
    }

    fn build_args(&self) -> (args: Vec<String>)
        ensures
            args.deep_view() == self@.args,
    {
        self.cmd.build_args()
    }
}

/// `gh issue close`: closes one issue.
pub struct IssueCloseCommand {
    executor: Arc<GhExecutor>,
    cmd: BaseCommand,
}

impl View for IssueCloseCommand {
    type V = InvocationView;

    closed spec fn view(&self) -> InvocationView {
        InvocationView { program: self.executor.gh_path@, args: self.cmd@ }
    }
}

impl IssueCloseCommand {
    fn new(executor: Arc<GhExecutor>, number: u32) -> (c: Self)
        ensures
            c@ == (InvocationView {
                program: executor.gh_path@,
                args: seq!["issue"@, "close"@, decimal(number as nat)],
            }),
    {
        IssueCloseCommand { executor, cmd: subcommand_on_number("issue", "close", number) }
    }

    /// The process to start for this command.
    pub fn invocation(&self) -> (inv: Invocation)
        ensures
            inv@ == self@,
    {
        GhCommand::invocation(self, &self.executor)
    }

    /// Reads the outcome of the finished process. `spawned` is what starting
    /// [`IssueCloseCommand::invocation`] with both output streams captured and
    /// waiting for it gave.
    pub fn execute(&self, spawned: Result<ExecutionOutcome, std::io::Error>) -> (r: Result<
        String,
        GhError,
    >)
        ensures
            run_result(spawned, r),
    {
        GhCommand::execute(self, &self.executor, spawned)
    }
}

impl GhCommand for IssueCloseCommand {
    open spec fn tokens(&self) -> Seq<Seq<char>> {
        self@.args
    }

    fn build_args(&self) -> (args: Vec<String>)
        ensures
            args.deep_view() == self@.args,
    {
        self.cmd.build_args()
    }
}

/// `gh issue reopen`: opens a closed issue again.
pub struct IssueReopenCommand {
    executor: Arc<GhExecutor>,
    cmd: BaseCommand,
}

impl View for IssueReopenCommand {
    type V = InvocationView;

    closed spec fn view(&self) -> InvocationView {
        InvocationView { program: self.executor.gh_path@, args: self.cmd@ }
    }
}

impl IssueReopenCommand {
    fn new(executor: Arc<GhExecutor>, number: u32) -> (c: Self)
        ensures
            c@ == (InvocationView {
                program: executor.gh_path@,
                args: seq!["issue"@, "reopen"@, decimal(number as nat)],
            }),
    {
        IssueReopenCommand { executor, cmd: subcommand_on_number("issue", "reopen", number) }
    }

    /// The process to start for this command.
    pub fn invocation(&self) -> (inv: Invocation)
        ensures
            inv@ == self@,
    {
        GhCommand::invocation(self, &self.executor)
    }

    /// Reads the outcome of the finished process. `spawned` is what starting
    /// [`IssueReopenCommand::invocation`] with both output streams captured and
    /// waiting for it gave.
    pub fn execute(&self, spawned: Result<ExecutionOutcome, std::io::Error>) -> (r: Result<
        String,
        GhError,
    >)
        ensures
            run_result(spawned, r),
    {
        GhCommand::execute(self, &self.executor, spawned)
    }
}

impl GhCommand for IssueReopenCommand {
    open spec fn tokens(&self) -> Seq<Seq<char>> {
        self@.args
    }

    fn build_args(&self) -> (args: Vec<String>)
        ensures
            args.deep_view() == self@.args,
    {
        self.cmd.build_args()
    }
}

} // verus!
