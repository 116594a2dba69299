//! Direct invocation: the program is run once per call with a subcommand and
//! arguments, optionally with one line of input, and answers in raw text.

use crate::error::{agrees, Error, Failure};
use crate::process::{
    accepts,
    answers,
    check_stderr,
    execute,
    program,
    program_name,
    reported,
    texts,
    Invocation,
    InvocationView,
    OutcomeView,
    ProcessOutcome,
};
use crate::text::{blank, is_blank};
use vstd::prelude::*;
use vstd::utf8::{decode_utf8, encode_utf8, valid_utf8};

verus! {

/// The byte that ends a line of input.
pub const LINE_FEED_BYTE: u8 = 0x0A;

/// The arguments of a direct invocation: the subcommand first, where there is
/// one and it is not blank, then the positional arguments in order.
pub open spec fn direct_args(subcommand: Option<Seq<char>>, arguments: Seq<Seq<char>>) -> Seq<
    Seq<char>,
> {
    match subcommand {
        Some(name) => if blank(name) {
            arguments
        } else {
            seq![name] + arguments
        },
        None => arguments,
    }
}

/// What is written to the process: the input, where there is one, followed by
/// a single line feed.
pub open spec fn direct_input(input: Option<Seq<char>>) -> Option<Seq<u8>> {
    match input {
        Some(line) => Some(encode_utf8(line) + seq![LINE_FEED_BYTE]),
        None => None,
    }
}

/// The invocation that a direct call with the arguments `args` makes.
pub open spec fn direct_call(args: Seq<Seq<char>>, input: Option<Seq<char>>) -> InvocationView {
    InvocationView { program: program(), args, input: direct_input(input) }
}

/// The view of an optional text.
pub open spec fn text_of(text: Option<&str>) -> Option<Seq<char>> {
    match text {
        Some(text) => Some(text@),
        None => None,
    }
}

/// Puts the subcommand, where there is one and it is not blank, in front of
/// the positional arguments.
pub fn arguments(subcommand: Option<&str>, positional: Vec<String>) -> (args: Vec<String>)
    ensures
        texts(args@) == direct_args(text_of(subcommand), texts(positional@)),
{
    let mut positional = positional;
    let ghost rest = texts(positional@);
    let mut args: Vec<String> = Vec::new();
    match subcommand {
        Some(name) => {
            if !is_blank(name) {
                args.push(name.to_owned());
            }
        },
        None => {},
    }
    args.append(&mut positional);
    assert(texts(args@) =~= direct_args(text_of(subcommand), rest));
    args
}

/// Builds the invocation of a direct call with the arguments `args`.
pub fn invocation(args: Vec<String>, input: Option<&str>) -> (call: Invocation)
    ensures
        call@ == direct_call(texts(args@), text_of(input)),
{
    let written: Option<Vec<u8>> = match input {
        Some(line) => {
            let mut bytes: Vec<u8> = line.as_bytes_vec();
            bytes.push(LINE_FEED_BYTE);
            assert(bytes@ =~= encode_utf8(line@) + seq![LINE_FEED_BYTE]);
            Some(bytes)
        },
        None => None,
    };
    Invocation { program: program_name(), args, input: written }
}

/// What a direct call returns for the streams of the finished process: the
/// failure that the error stream reports, if it reports one; else the output
/// stream as text, unmodified.
pub open spec fn direct_output(outcome: OutcomeView) -> Result<Seq<char>, Failure> {
    match reported(outcome.stderr) {
        Some(failure) => Err(failure),
        None => if valid_utf8(outcome.stdout) {
            Ok(decode_utf8(outcome.stdout))
        } else {
            Err(Failure::FromUtf8)
        },
    }
}

/// Decodes what the process of a direct call left behind.
pub fn output(outcome: ProcessOutcome) -> (result: Result<String, Error>)
    ensures
        agrees(result, direct_output(outcome@)),
{
    match check_stderr(outcome.stderr) {
        Err(error) => Err(error),
        Ok(()) => match String::from_utf8(outcome.stdout) {
            Ok(text) => Ok(text),
            Err(error) => Err(Error::FromUtf8(error)),
        },
    }
}

/// Runs the program once through `run` and returns its raw output.
pub fn invoke<F: FnOnce(Invocation) -> Result<ProcessOutcome, std::io::Error>>(
    subcommand: Option<&str>,
    positional: Vec<String>,
    input: Option<&str>,
    run: F,
) -> (result: Result<String, Error>)
    requires
        accepts(
            run,
            Ok(direct_call(direct_args(text_of(subcommand), texts(positional@)), text_of(input))),
        ),
    ensures
        exists|reply: Result<ProcessOutcome, std::io::Error>|
            answers(
                run,
                direct_call(
                    direct_args(text_of(subcommand), texts(positional@)),
                    text_of(input),
                ),
                reply,
            ) && (match reply {
                Ok(outcome) => agrees(result, direct_output(outcome@)),
                Err(cause) => result == Err::<String, Error>(Error::Io(cause)),
            }),
{
    match execute(invocation(arguments(subcommand, positional), input), run) {
        Ok(outcome) => output(outcome),
        Err(error) => Err(error),
    }
}

} // verus!
