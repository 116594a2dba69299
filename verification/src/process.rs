//! One run of the external program: what it is started with, and what it
//! leaves behind.

use crate::error::{Error, Failure};
use crate::text::{chomp, chomped};
use vstd::prelude::*;
use vstd::utf8::{decode_utf8, valid_utf8};

verus! {

/// How the external program is to be run once.
#[derive(Debug, PartialEq, Eq)]
pub struct Invocation {
    /// The name under which the program is found on the execution path.
    pub program: String,
    /// The arguments, in order.
    pub args: Vec<String>,
    /// The bytes to write to the standard input of the process before its
    /// exit is awaited; `None` where nothing is written.
    pub input: Option<Vec<u8>>,
}

/// The captured streams and the exit status of a process that has exited.
#[derive(Debug, PartialEq, Eq)]
pub struct ProcessOutcome {
    /// All of the standard output.
    pub stdout: Vec<u8>,
    /// All of the standard error.
    pub stderr: Vec<u8>,
    /// The exit code, where the process had one. No decision rests on it.
    pub status: Option<i32>,
}

/// The texts of a sequence of strings, in order.
pub open spec fn texts(strings: Seq<String>) -> Seq<Seq<char>> {
    Seq::new(strings.len(), |i: int| strings[i]@)
}

/// An [`Invocation`] as plain values.
pub struct InvocationView {
    pub program: Seq<char>,
    pub args: Seq<Seq<char>>,
    pub input: Option<Seq<u8>>,
}

impl View for Invocation {
    type V = InvocationView;

    open spec fn view(&self) -> InvocationView {
        InvocationView {
            program: self.program@,
            args: texts(self.args@),
            input: match self.input {
                Some(bytes) => Some(bytes@),
                None => None,
            },
        }
    }
}

/// A [`ProcessOutcome`] as plain values.
pub struct OutcomeView {
    pub stdout: Seq<u8>,
    pub stderr: Seq<u8>,
}

impl View for ProcessOutcome {
    type V = OutcomeView;

    open spec fn view(&self) -> OutcomeView {
        OutcomeView { stdout: self.stdout@, stderr: self.stderr@ }
    }
}

/// Whether `run` can be handed every invocation that stands for the call of
/// `plan`. Of a plan that refuses, nothing is asked: there is then no
/// invocation to hand over.
pub open spec fn accepts<F: FnOnce(Invocation) -> Result<ProcessOutcome, std::io::Error>>(
    run: F,
    plan: Result<InvocationView, Failure>,
) -> bool {
    forall|invocation: Invocation|
        plan == Ok::<InvocationView, Failure>(invocation@) ==> run.requires((invocation,))
}

/// Whether `reply` is something that `run` may return for an invocation that
/// stands for `call`.
pub open spec fn answers<F: FnOnce(Invocation) -> Result<ProcessOutcome, std::io::Error>>(
    run: F,
    call: InvocationView,
    reply: Result<ProcessOutcome, std::io::Error>,
) -> bool {
    exists|invocation: Invocation| invocation@ == call && run.ensures((invocation,), reply)
}

/// Whether `result` hands on what `run` answered: the outcome of the process,
/// or the failure to run it.
pub open spec fn passes_on(
    reply: Result<ProcessOutcome, std::io::Error>,
    result: Result<ProcessOutcome, Error>,
) -> bool {
    match reply {
        Ok(outcome) => result == Ok::<ProcessOutcome, Error>(outcome),
        Err(cause) => result == Err::<ProcessOutcome, Error>(Error::Io(cause)),
    }
}

/// Has `run` carry out `call`, once.
pub fn execute<F: FnOnce(Invocation) -> Result<ProcessOutcome, std::io::Error>>(
    call: Invocation,
    run: F,
) -> (result: Result<ProcessOutcome, Error>)
    requires
        run.requires((call,)),
    ensures
        exists|reply: Result<ProcessOutcome, std::io::Error>|
            answers(run, call@, reply) && passes_on(reply, result),
{
    let reply = run(call);
    let ghost seen = reply;
    let result = match reply {
        Ok(outcome) => Ok(outcome),
        Err(cause) => Err(Error::Io(cause)),
    };
    proof {
        assert(run.ensures((call,), seen));
        assert(answers(run, call@, seen));
        assert(passes_on(seen, result));
    }
    result
}

/// The name of the external program.
pub open spec fn program() -> Seq<char> {
    "gopass"@
}

/// The name of the external program.
pub fn program_name() -> (name: String)
    ensures
        name@ == program(),
{
    "gopass".to_string()
}

/// What the error stream says of the run: nothing where its text, without a
/// trailing line feed, is empty; else the failure that the run ends in.
pub open spec fn reported(stderr: Seq<u8>) -> Option<Failure> {
    if !valid_utf8(stderr) {
        Some(Failure::FromUtf8)
    } else if chomped(decode_utf8(stderr)).len() > 0 {
        Some(Failure::Pass(chomped(decode_utf8(stderr))))
    } else {
        None
    }
}

/// Reads the error stream. Its text, trimmed of one trailing line feed, is
/// the program's failure report wherever it is not empty, whatever the
/// output stream holds.
pub fn check_stderr(stderr: Vec<u8>) -> (result: Result<(), Error>)
    ensures
        match reported(stderr@) {
            Some(failure) => result matches Err(error) && error@ == failure,
            None => result is Ok,
        },
{
    match String::from_utf8(stderr) {
        Err(error) => Err(Error::FromUtf8(error)),
        Ok(text) => {
            let trimmed: &str = chomp(text.as_str());
            if !trimmed.is_empty() {
                Err(Error::Pass(trimmed.to_owned()))
            } else {
                Ok(())
            }
        },
    }
}

} // verus!
