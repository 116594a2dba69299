//! Framed session: the program is started in its listening mode, is sent one
//! framed request, and answers with a framed reply of structured data.

use crate::error::{agrees, Error, Failure};
use crate::frame::{frame, framed, payload, unframed, MAX_PAYLOAD};
use crate::parse::{parse, parsed};
use crate::process::{
    accepts,
    answers,
    check_stderr,
    execute,
    program,
    program_name,
    reported,
    Invocation,
    InvocationView,
    OutcomeView,
    ProcessOutcome,
};
use crate::request::{request_text, Request};
use crate::value::{Tree, Value};
use vstd::prelude::*;
use vstd::utf8::{decode_utf8, encode_utf8, valid_utf8};

verus! {

/// The two arguments that start the program in its listening mode.
pub open spec fn session_args() -> Seq<Seq<char>> {
    seq!["jsonapi"@, "listen"@]
}

/// The bytes of the text that stands for `request`.
pub open spec fn request_bytes(request: Seq<(Seq<char>, Tree)>) -> Seq<u8> {
    encode_utf8(request_text(request))
}

/// Whether the text of `request` is short enough for its length to be
/// written in the four bytes of a prefix.
pub open spec fn fits(request: Seq<(Seq<char>, Tree)>) -> bool {
    request_bytes(request).len() <= MAX_PAYLOAD
}

/// The invocation that sends `request` in a framed session.
pub open spec fn session_call(request: Seq<(Seq<char>, Tree)>) -> InvocationView {
    InvocationView {
        program: program(),
        args: session_args(),
        input: Some(framed(request_bytes(request))),
    }
}

/// Builds the invocation that sends `request`: the listening mode, with the
/// framed text of the request as input. There is none where the text is too
/// long to be framed.
pub fn invocation(request: &Request) -> (call: Option<Invocation>)
    ensures
        match call {
            Some(call) => fits(request@) && call@ == session_call(request@),
            None => !fits(request@),
        },
{
    let text: String = request.dump();
    let bytes: &[u8] = text.as_str().as_bytes();
    if bytes.len() > MAX_PAYLOAD {
        return None;
    }
    let mut args: Vec<String> = Vec::new();
    args.push("jsonapi".to_string());
    args.push("listen".to_string());
    let call = Invocation { program: program_name(), args, input: Some(frame(bytes)) };
    assert(call@.args =~= session_args());
    Some(call)
}

/// What a framed session returns for the streams of the finished process:
/// the failure that the error stream reports, if it reports one; else the
/// tree that the output stream holds behind its first four bytes.
pub open spec fn session_response(outcome: OutcomeView) -> Result<Tree, Failure> {
    match reported(outcome.stderr) {
        Some(failure) => Err(failure),
        None => if !valid_utf8(unframed(outcome.stdout)) {
            Err(Failure::Utf8)
        } else {
            match parsed(decode_utf8(unframed(outcome.stdout))) {
                Some(tree) => Ok(tree),
                None => Err(Failure::Json),
            }
        },
    }
}

/// Decodes what the process of a framed session left behind.
pub fn response(outcome: ProcessOutcome) -> (result: Result<Value, Error>)
    ensures
        agrees(result, session_response(outcome@)),
{
    match check_stderr(outcome.stderr) {
        Err(error) => Err(error),
        Ok(()) => match std::str::from_utf8(payload(outcome.stdout.as_slice())) {
            Err(error) => Err(Error::Utf8(error)),
            Ok(text) => parse(text),
        },
    }
}

/// Sends `message` in a framed session that `run` carries out, and returns
/// the structured reply. A message too long to be framed is refused and
/// nothing is run.
pub fn request<F: FnOnce(Invocation) -> Result<ProcessOutcome, std::io::Error>>(
    message: &Request,
    run: F,
) -> (result: Result<Value, Error>)
    requires
        fits(message@) ==> accepts(run, Ok(session_call(message@))),
    ensures
        !fits(message@) ==> agrees(result, Err(Failure::InvalidInput)),
        fits(message@) ==> exists|reply: Result<ProcessOutcome, std::io::Error>|
            answers(run, session_call(message@), reply) && (match reply {
                Ok(outcome) => agrees(result, session_response(outcome@)),
                Err(cause) => result == Err::<Value, Error>(Error::Io(cause)),
            }),
{
    match invocation(message) {
        None => Err(Error::InvalidInput),
        Some(call) => match execute(call, run) {
            Ok(outcome) => response(outcome),
            Err(error) => Err(error),
        },
    }
}

} // verus!
