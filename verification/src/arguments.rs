//! The argument sequence as mathematical data: what each configuration call
//! does to it, and what holds of any number of calls.

use vstd::prelude::*;

verus! {

/// The sequence after one more bare token.
pub open spec fn with_arg(tokens: Seq<Seq<char>>, value: Seq<char>) -> Seq<Seq<char>> {
    tokens.push(value)
}

/// The sequence after several more bare tokens, in their order.
pub open spec fn with_args(tokens: Seq<Seq<char>>, values: Seq<Seq<char>>) -> Seq<Seq<char>> {
    tokens + values
}

/// The sequence after one more flag: a single token.
pub open spec fn with_flag(tokens: Seq<Seq<char>>, name: Seq<char>) -> Seq<Seq<char>> {
    tokens.push(name)
}

/// The sequence after one more option: its name, then its value.
pub open spec fn with_option(tokens: Seq<Seq<char>>, key: Seq<char>, value: Seq<char>) -> Seq<
    Seq<char>,
> {
    tokens.push(key).push(value)
}

/// One configuration call, as data: what was asked for, without the builder
/// it was asked of.
pub enum ConfigCall {
    /// One bare token.
    Arg(Seq<char>),
    /// Several bare tokens.
    Args(Seq<Seq<char>>),
    /// A flag.
    Flag(Seq<char>),
    /// An option and its value.
    Opt(Seq<char>, Seq<char>),
}

impl ConfigCall {
    /// The tokens that this call contributes.
    pub open spec fn contributes(self) -> Seq<Seq<char>> {
        match self {
            ConfigCall::Arg(value) => seq![value],
            ConfigCall::Args(values) => values,
            ConfigCall::Flag(name) => seq![name],
            ConfigCall::Opt(key, value) => seq![key, value],
        }
    }

    /// The sequence that this call makes of `tokens`.
    pub open spec fn apply(self, tokens: Seq<Seq<char>>) -> Seq<Seq<char>> {
        match self {
            ConfigCall::Arg(value) => with_arg(tokens, value),
            ConfigCall::Args(values) => with_args(tokens, values),
            ConfigCall::Flag(name) => with_flag(tokens, name),
            ConfigCall::Opt(key, value) => with_option(tokens, key, value),
        }
    }
}

/// The sequence that `calls`, made one after the other, make of `start`.
pub open spec fn configured(start: Seq<Seq<char>>, calls: Seq<ConfigCall>) -> Seq<Seq<char>>
    decreases calls.len(),
{
    if calls.len() == 0 {
        start
    } else {
        calls.last().apply(configured(start, calls.drop_last()))
    }
}

/// What `calls` contribute, call after call.
pub open spec fn contributed(calls: Seq<ConfigCall>) -> Seq<Seq<char>>
    decreases calls.len(),
{
    if calls.len() == 0 {
        Seq::empty()
    } else {
        contributed(calls.drop_last()) + calls.last().contributes()
    }
}

/// Whatever the configuration calls and however many, the tokens come out in
/// call order: first the tokens that the builder started with, untouched,
/// then what the first call contributed, then the second, and so on.
pub proof fn lemma_tokens_follow_call_order(start: Seq<Seq<char>>, calls: Seq<ConfigCall>)
    ensures
        configured(start, calls) == start + contributed(calls),
        start.is_prefix_of(configured(start, calls)),
        configured(start, calls).len() == start.len() + contributed(calls).len(),
    decreases calls.len(),
{
    if calls.len() == 0 {
        assert(configured(start, calls) =~= start + contributed(calls));
    } else {
        lemma_tokens_follow_call_order(start, calls.drop_last());
        assert(configured(start, calls) =~= start + contributed(calls));
    }
    assert(start.is_prefix_of(start + contributed(calls)));
}

/// A flag contributes exactly one token, its name; an option contributes
/// exactly two, its name and then its value. Nothing before them moves.
pub proof fn lemma_flag_is_one_token_option_is_two(
    tokens: Seq<Seq<char>>,
    name: Seq<char>,
    value: Seq<char>,
)
    ensures
        with_flag(tokens, name) == tokens + seq![name],
        with_flag(tokens, name).len() == tokens.len() + 1,
        with_option(tokens, name, value) == tokens + seq![name, value],
        with_option(tokens, name, value).len() == tokens.len() + 2,
{
    assert(with_flag(tokens, name) =~= tokens + seq![name]);
    assert(with_option(tokens, name, value) =~= tokens + seq![name, value]);
}

/// A copy of `tokens`, token for token.
pub(crate) fn copy_tokens(tokens: &[String]) -> (copy: Vec<String>)
    ensures
        copy.deep_view() == tokens.deep_view(),
{
    let mut copy: Vec<String> = Vec::new();
    let mut i: usize = 0;
    while i < tokens.len()
        invariant
            i <= tokens.len(),
            copy.len() == i,
            forall|j: int| 0 <= j < i ==> copy[j]@ == tokens[j]@,
        decreases tokens.len() - i,
    {
        copy.push(tokens[i].clone());
        i = i + 1;
    }
    assert(copy.deep_view() =~= tokens.deep_view());
    copy
}

} // verus!
