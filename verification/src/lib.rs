//! A typed, fluent way to describe invocations of the GitHub command-line
//! tool `gh` and to classify what such an invocation produced.
//!
//! The crate has two layers. The argument builder ([`BaseCommand`] and the
//! command types built on it) turns a chain of configuration calls into an
//! ordered sequence of tokens. The executor ([`GhExecutor`]) says which
//! program is to be started with those tokens and maps the raw outcome of the
//! finished process to a result or to one of the errors of [`GhError`].
//!
//! Starting the process is left to the caller: every command hands out an
//! [`Invocation`] and takes back what running it produced.

pub mod arguments;
pub mod client;
pub mod command;
pub mod commands;
pub mod error;
pub mod executor;
pub mod process;
pub mod text;

pub use client::{GhClient, GhClientBuilder};
pub use command::{BaseCommand, CommandBuilder, GhCommand};
pub use commands::issue::{
    Author, Issue, IssueCloseCommand, IssueCommands, IssueCreateCommand, IssueListCommand,
    IssueReopenCommand, IssueViewCommand,
};
pub use commands::pr::{
    PrCheckoutCommand, PrCloseCommand, PrCommands, PrCreateCommand, PrListCommand, PrMergeCommand,
    PrViewCommand,
};
pub use commands::repo::{
    RepoCloneCommand, RepoCommands, RepoCreateCommand, RepoForkCommand, RepoListCommand,
    RepoViewCommand, Repository,
};
pub use error::{GhError, GhErrorView};
pub use executor::GhExecutor;
pub use process::{ExecutionOutcome, Invocation, InvocationView};
