//! The verified core of command supervision: what gets written to a
//! running command, and how the outcome of every outside operation reads
//! as a typed event.
//!
//! The pseudo-terminal, the process and the channel live outside the
//! crate; the functions here decide, on plain values, what those
//! collaborators are told and what their results mean.

pub mod ssh_keygen;

use vstd::prelude::*;

use crate::events::messages::{Message, MessageV};

verus! {

/// The command tasks the application can run.
#[derive(Clone, Copy, PartialEq, Eq, Structural, Debug, Hash)]
pub enum CmdTask {
    SshKeygen,
}

/// The byte that terminates every line written to a command: a line
/// feed.
pub const LINE_TERMINATOR: u8 = 10;

/// The exact bytes written to a command for one answer: the content with
/// the line terminator appended. Answering a prompt with empty content
/// writes just the line terminator.
pub fn with_line_terminator(content: &Vec<u8>) -> (r: Vec<u8>)
    ensures
        r@ == content@.push(LINE_TERMINATOR),
{
    let mut out: Vec<u8> = Vec::new();
    let n = content.len();
    for i in 0..n
        invariant
            n == content@.len(),
            out@ == content@.take(i as int),
    {
        out.push(content[i]);
        proof {
            assert(content@.take(i + 1) =~= content@.take(i as int).push(content@[i as int]));
        }
    }
    proof {
        assert(content@.take(n as int) =~= content@);
    }
    out.push(LINE_TERMINATOR);
    out
}

/// How a spawn attempt reads as an event: a started task is announced, a
/// failure becomes a dismissible error.
pub fn spawn_outcome(cmd_task: CmdTask, result: Result<(), String>) -> (r: Message)
    ensures
        result is Ok ==> r@ == MessageV::CmdSpawned(cmd_task),
        result matches Err(e) ==> r@ == MessageV::PrintError(e@),
{
    match result {
        Result::Ok(_) => Message::CmdSpawned(cmd_task),
        Result::Err(e) => Message::PrintError(e),
    }
}

/// How a kill attempt reads as an event. `None` stands for "no live handle
/// for the given kind": that and a failed kill are fatal, a successful kill
/// finishes the command.
pub fn kill_outcome(result: Option<Result<(), String>>) -> (r: Message)
    ensures
        result is None ==> r@ == MessageV::FatalError("ssh-keygen is not currently running"@),
        result matches Some(inner) ==> (inner is Ok ==> r@ == MessageV::CmdFinished),
        result matches Some(inner) ==> (inner matches Err(e) ==> r@ == MessageV::FatalError(e@)),
{
    match result {
        Option::None => Message::FatalError("ssh-keygen is not currently running".to_owned()),
        Option::Some(Result::Ok(_)) => Message::CmdFinished,
        Option::Some(Result::Err(e)) => Message::FatalError(e),
    }
}

/// How a write to a running command reads as an event. `None` stands for
/// "no live handle for the given kind": then, and after a successful write,
/// nothing is reported; a failed write becomes a dismissible error and
/// does not kill the command.
pub fn write_outcome(result: Option<Result<(), String>>) -> (r: Option<Message>)
    ensures
        result is None ==> r is None,
        result matches Some(inner) ==> (inner is Ok ==> r is None),
        result matches Some(inner) ==> (inner matches Err(e) ==> (r matches Some(m) && m@
            == MessageV::PrintError(e@))),
{
    match result {
        Option::None => Option::None,
        Option::Some(Result::Ok(_)) => Option::None,
        Option::Some(Result::Err(e)) => Option::Some(Message::PrintError(e)),
    }
}

} // verus!
