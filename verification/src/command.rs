//! The argument builder and the two capabilities that every command has:
//! it can be configured step by step, and it can say which tokens it stands
//! for.

use crate::arguments::{copy_tokens, with_arg, with_args, with_flag, with_option};
use crate::error::GhError;
use crate::executor::{run_result, GhExecutor};
use crate::process::{ExecutionOutcome, Invocation, InvocationView};
use vstd::prelude::*;

verus! {

/// Anything that stands for one invocation of the tool.
pub trait GhCommand {
    /// The tokens of the invocation, in the order in which they are passed.
    spec fn tokens(&self) -> Seq<Seq<char>>;

    /// Hands out the tokens. The command itself stays as it was, so asking
    /// again gives the same tokens.
    fn build_args(&self) -> (args: Vec<String>)
        ensures
            args.deep_view() == self.tokens(),
    ;

    /// The process to start for this command on `executor`.
    fn invocation(&self, executor: &GhExecutor) -> (inv: Invocation)
        ensures
            inv@ == (InvocationView { program: executor.gh_path@, args: self.tokens() }),
    {
        let args = self.build_args();
        executor.invocation(args.as_slice())
    }

    /// What the finished process means, as the executor reads it; nothing is
    /// added and nothing is taken away.
    fn execute(
        &self,
        executor: &GhExecutor,
        spawned: Result<ExecutionOutcome, std::io::Error>,
    ) -> (r: Result<String, GhError>)
        ensures
            run_result(spawned, r),
    {
        executor.execute(spawned)
    }
}

/// Fluent configuration: every call consumes the builder and returns the
/// builder with the new tokens at the end.
pub trait CommandBuilder: Sized {
    /// The tokens gathered so far.
    spec fn gathered(&self) -> Seq<Seq<char>>;

    /// Appends a flag, such as `--web`.
    fn flag(self, flag: &str) -> (r: Self)
        ensures
            r.gathered() == with_flag(self.gathered(), flag@),
    ;

    /// Appends an option and its value, such as `--repo` and `owner/name`.
    fn option(self, key: &str, value: &str) -> (r: Self)
        ensures
            r.gathered() == with_option(self.gathered(), key@, value@),
    ;
}

/// The accumulator behind every command: an ordered list of tokens that only
/// ever grows at its end.
#[derive(Debug)]
pub struct BaseCommand {
    pub(crate) args: Vec<String>,
}

impl View for BaseCommand {
    type V = Seq<Seq<char>>;

    closed spec fn view(&self) -> Seq<Seq<char>> {
        self.args.deep_view()
    }
}

impl Clone for BaseCommand {
    fn clone(&self) -> (r: Self)
        ensures
            r@ == self@,
    {
        BaseCommand { args: self.build_args() }
    }
}

impl BaseCommand {
    /// A command that starts with the single token `subcommand`.
    pub fn new(subcommand: &str) -> (r: Self)
        ensures
            r@ == seq![subcommand@],
    {
        let mut args: Vec<String> = Vec::new();
        args.push(subcommand.to_owned());
        let r = BaseCommand { args };
        assert(r@ =~= seq![subcommand@]);
        r
    }

    /// A command that starts with the tokens of `subcommands`, such as `pr`
    /// and `list`.
    pub fn with_subcommands(subcommands: &[&str]) -> (r: Self)
        ensures
            r@ == subcommands.deep_view(),
    {
        let r = BaseCommand { args: Vec::new() };
        assert(r@ =~= Seq::<Seq<char>>::empty());
        let r = r.args(subcommands);
        assert(r@ =~= subcommands.deep_view());
        r
    }

    /// Appends one bare token.
    pub fn arg(self, arg: &str) -> (r: Self)
        ensures
            r@ == with_arg(self@, arg@),
    {
        let mut args = self.args;
        args.push(arg.to_owned());
        let r = BaseCommand { args };
        assert(r@ =~= with_arg(self@, arg@));
        r
    }

    /// Appends several bare tokens, in their order.
    pub fn args(self, args: &[&str]) -> (r: Self)
        ensures
            r@ == with_args(self@, args.deep_view()),
    {
        let mut tokens = self.args;
        let mut i: usize = 0;
        while i < args.len()
            invariant
                i <= args.len(),
                tokens.len() == self.args.len() + i,
                forall|j: int| 0 <= j < self.args.len() ==> tokens[j]@ == self.args[j]@,
                forall|j: int| 0 <= j < i ==> tokens[self.args.len() + j]@ == args[j]@,
            decreases args.len() - i,
        {
            tokens.push(args[i].to_owned());
            i = i + 1;
        }
        let r = BaseCommand { args: tokens };
        assert(r@ =~= with_args(self@, args.deep_view()));
        r
    }
}

impl CommandBuilder for BaseCommand {
    open spec fn gathered(&self) -> Seq<Seq<char>> {
        self@
    }

    fn flag(self, flag: &str) -> (r: Self)
        ensures
            r@ == with_flag(self@, flag@),
    {
        let mut args = self.args;
        args.push(flag.to_owned());
        let r = BaseCommand { args };
        assert(r@ =~= with_flag(self@, flag@));
        r
    }

    fn option(self, key: &str, value: &str) -> (r: Self)
        ensures
            r@ == with_option(self@, key@, value@),
    {
        let mut args = self.args;
        args.push(key.to_owned());
        args.push(value.to_owned());
        let r = BaseCommand { args };
        assert(r@ =~= with_option(self@, key@, value@));
        r
    }
}

impl GhCommand for BaseCommand {
    open spec fn tokens(&self) -> Seq<Seq<char>> {
        self@
    }

    fn build_args(&self) -> (args: Vec<String>)
        ensures
            args.deep_view() == self@,
    {
        copy_tokens(self.args.as_slice())
    }
}

} // verus!
