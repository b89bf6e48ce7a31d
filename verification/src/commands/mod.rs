//! The commands of the tool, grouped as the tool groups them. Every command
//! pairs one argument builder with the executor it was made for, and its
//! view is the invocation that it stands for.

pub mod issue;
pub mod pr;
pub mod repo;

use crate::command::BaseCommand;
use crate::text::{decimal, decimal_string};
use vstd::prelude::*;

verus! {

/// The builder of a command whose subcommand path is `group`, then `action`.
pub(crate) fn subcommand(group: &str, action: &str) -> (cmd: BaseCommand)
    ensures
        cmd@ == seq![group@, action@],
{
    let path = [group, action];
    let cmd = BaseCommand::with_subcommands(path.as_slice());
    assert(cmd@ =~= seq![group@, action@]);
    cmd
}

/// The builder of a command that acts on one named thing: the subcommand
/// path, then `target` as a bare token.
pub(crate) fn subcommand_on(group: &str, action: &str, target: &str) -> (cmd: BaseCommand)
    ensures
        cmd@ == seq![group@, action@, target@],
{
    let cmd = subcommand(group, action).arg(target);
    assert(cmd@ =~= seq![group@, action@, target@]);
    cmd
}

/// The builder of a command that acts on a numbered item: the subcommand
/// path, then the decimal numeral of `number`.
pub(crate) fn subcommand_on_number(group: &str, action: &str, number: u32) -> (cmd: BaseCommand)
    ensures
        cmd@ == seq![group@, action@, decimal(number as nat)],
{
    let numeral = decimal_string(number);
    subcommand_on(group, action, numeral.as_str())
}

} // verus!
