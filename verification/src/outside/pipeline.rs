//! Redis commands and pipelines of them.
use vstd::prelude::*;

verus! {

/// `redis::Cmd`: a command with its arguments.
#[verifier::external_type_specification]
#[verifier::external_body]
pub struct ExCmd(redis::Cmd);

/// `redis::Pipeline`: commands that are sent together.
#[verifier::external_type_specification]
#[verifier::external_body]
pub struct ExPipeline(redis::Pipeline);

/// The words of a command: its name, then its arguments.
pub uninterp spec fn arguments(command: redis::Cmd) -> Seq<Seq<char>>;

/// The commands of a pipeline, each as its words.
pub uninterp spec fn commands(pipeline: redis::Pipeline) -> Seq<Seq<Seq<char>>>;

/// Whether a pipeline is sent as one transaction.
pub uninterp spec fn in_transaction(pipeline: redis::Pipeline) -> bool;

/// The characters of each text.
pub open spec fn words_of(texts: Seq<String>) -> Seq<Seq<char>> {
    Seq::new(texts.len(), |i: int| texts[i]@)
}

/// Calls `redis::Cmd::new` and `redis::Cmd::arg`: the command has exactly these
/// words.
#[verifier::external_body]
pub(crate) fn command_of(words: Vec<String>) -> (command: redis::Cmd)
    ensures
        arguments(command) == words_of(words@),
{
    redis::Cmd::new().arg(words).take()
}

/// Calls `redis::Pipeline::new`: there is no command in it, and it is no
/// transaction.
#[verifier::external_body]
pub(crate) fn pipeline_new() -> (pipeline: redis::Pipeline)
    ensures
        commands(pipeline).len() == 0,
        !in_transaction(pipeline),
{
    redis::Pipeline::new()
}

/// Calls `redis::Pipeline::atomic`: the commands stay, and are sent as one
/// transaction.
#[verifier::external_body]
pub(crate) fn pipeline_atomic(pipeline: &mut redis::Pipeline)
    ensures
        commands(*final(pipeline)) == commands(*old(pipeline)),
        in_transaction(*final(pipeline)),
{
    pipeline.atomic();
}

/// Calls `redis::Pipeline::add_command`: the command comes last.
#[verifier::external_body]
pub(crate) fn pipeline_add(pipeline: &mut redis::Pipeline, command: redis::Cmd)
    ensures
        commands(*final(pipeline)) == commands(*old(pipeline)).push(arguments(command)),
        in_transaction(*final(pipeline)) == in_transaction(*old(pipeline)),
{
    pipeline.add_command(command);
}

/// Calls `redis::Pipeline::cmd_iter`: the commands in their order.
#[verifier::external_body]
pub(crate) fn pipeline_commands(pipeline: &redis::Pipeline) -> (list: Vec<redis::Cmd>)
    ensures
        list@.len() == commands(*pipeline).len(),
        forall|i: int|
            0 <= i < list@.len() ==> arguments(#[trigger] list@[i]) == commands(*pipeline)[i],
{
    pipeline.cmd_iter().cloned().collect()
}

} // verus!
