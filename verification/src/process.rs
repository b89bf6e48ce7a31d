//! Plain values that cross the process boundary: what is to be started, and
//! what a finished process left behind.

use crate::arguments::{
    configured, contributed, lemma_tokens_follow_call_order, with_arg, with_flag, with_option,
    ConfigCall,
};
use vstd::prelude::*;

verus! {

/// The raw result of one run of a child process.
#[derive(Debug)]
pub struct ExecutionOutcome {
    /// The exit code, or `None` where the platform reports none (the process
    /// was ended by a signal).
    pub code: Option<i32>,
    /// Everything the process wrote to standard output.
    pub stdout: Vec<u8>,
    /// Everything the process wrote to standard error.
    pub stderr: Vec<u8>,
}

/// The code under which a failed run is reported: the exit code itself, or
/// -1 where there is none.
pub open spec fn reported_code(code: Option<i32>) -> i32 {
    match code {
        Some(c) => c,
        None => -1i32,
    }
}

impl ExecutionOutcome {
    /// A run succeeded exactly when the process exited with code zero.
    pub open spec fn succeeded(&self) -> bool {
        self.code == Some(0i32)
    }

    /// Whether the process exited with code zero.
    pub fn success(&self) -> (b: bool)
        ensures
            b == self.succeeded(),
    {
        match self.code {
            Some(c) => c == 0,
            None => false,
        }
    }
}

/// One process to start: the program and its argument vector, which is
/// handed over as it is, with no shell in between.
#[derive(Debug)]
pub struct Invocation {
    /// Name or path of the program.
    pub program: String,
    /// The arguments, in order.
    pub args: Vec<String>,
}

/// An invocation as mathematical data.
pub struct InvocationView {
    pub program: Seq<char>,
    pub args: Seq<Seq<char>>,
}

impl View for Invocation {
    type V = InvocationView;

    open spec fn view(&self) -> InvocationView {
        InvocationView { program: self.program@, args: self.args.deep_view() }
    }
}

impl InvocationView {
    /// This invocation with one more bare token.
    pub open spec fn arg(self, value: Seq<char>) -> InvocationView {
        InvocationView { program: self.program, args: with_arg(self.args, value) }
    }

    /// This invocation with one more flag.
    pub open spec fn flag(self, name: Seq<char>) -> InvocationView {
        InvocationView { program: self.program, args: with_flag(self.args, name) }
    }

    /// This invocation with one more option and its value.
    pub open spec fn option(self, key: Seq<char>, value: Seq<char>) -> InvocationView {
        InvocationView { program: self.program, args: with_option(self.args, key, value) }
    }

    /// This invocation after `calls`, made one after the other.
    pub open spec fn configured(self, calls: Seq<ConfigCall>) -> InvocationView {
        InvocationView { program: self.program, args: configured(self.args, calls) }
    }
}

/// However a command is configured, it stays with its program, and its
/// tokens are those it started with followed by what each call contributed,
/// in call order.
pub proof fn lemma_configuration_keeps_program_and_order(
    command: InvocationView,
    calls: Seq<ConfigCall>,
)
    ensures
        command.configured(calls).program == command.program,
        command.configured(calls).args == command.args + contributed(calls),
        command.args.is_prefix_of(command.configured(calls).args),
{
    lemma_tokens_follow_call_order(command.args, calls);
}

/// Two commands for one program, each configured by calls of its own, stand
/// for two invocations of that program. The tokens of each are settled by
/// its own start and its own calls, whatever was asked of the other.
pub proof fn lemma_commands_of_one_program_keep_apart(
    first: InvocationView,
    first_calls: Seq<ConfigCall>,
    second: InvocationView,
    second_calls: Seq<ConfigCall>,
)
    requires
        first.program == second.program,
    ensures
        first.configured(first_calls).program == second.configured(second_calls).program,
        first.configured(first_calls).args == first.args + contributed(first_calls),
        second.configured(second_calls).args == second.args + contributed(second_calls),
{
    lemma_configuration_keeps_program_and_order(first, first_calls);
    lemma_configuration_keeps_program_and_order(second, second_calls);
}

} // verus!
