//! The operations on the password store.
//!
//! Each operation has three parts. Its `_call` says how the program is to be
//! run, or refuses the input before anything is run. Its `_reply` decodes
//! what the finished process left behind. The operation itself joins the two
//! around `run`, a function that runs the process.
//!
//! An operation asks of `run` only that it can be handed the planned
//! invocation. Where the plan refuses the input, nothing is asked of `run`,
//! so it cannot be called; and being `FnOnce`, it is called once at most.

use crate::direct::{direct_call, direct_output, invocation, output};
use crate::error::{agrees, Error, Failure};
use crate::framed::{fits, response, session_call, session_response};
use crate::process::{
    accepts,
    answers,
    check_stderr,
    execute,
    reported,
    texts,
    Invocation,
    InvocationView,
    OutcomeView,
    ProcessOutcome,
};
use crate::reply::{
    check_generated,
    check_inserted,
    generated_in,
    inserted_in,
    lists,
    password_in,
    read_password,
    read_usernames,
    usernames_in,
};
use crate::request::{
    generate_fields,
    generate_request,
    insert_fields,
    insert_request,
    login_fields,
    login_request,
    query_fields,
    query_request,
    Request,
};
use crate::text::{blank, chomp, chomped, is_blank};
use crate::value::Tree;
use vstd::prelude::*;

verus! {

/// How an operation on the entry at `path` sends the request with the given
/// fields: in a framed session, unless the path is blank or the request too
/// long to be framed.
pub open spec fn session_plan(path: Seq<char>, fields: Seq<(Seq<char>, Tree)>) -> Result<
    InvocationView,
    Failure,
> {
    if blank(path) || !fits(fields) {
        Err(Failure::InvalidInput)
    } else {
        Ok(session_call(fields))
    }
}

/// How an operation on the entry at `path` runs the program directly with
/// the given arguments and input, unless the path is blank.
pub open spec fn direct_plan(path: Seq<char>, args: Seq<Seq<char>>, input: Option<Seq<char>>) -> Result<
    InvocationView,
    Failure,
> {
    if blank(path) {
        Err(Failure::InvalidInput)
    } else {
        Ok(direct_call(args, input))
    }
}

/// What an operation returns that only asks whether the run succeeded: the
/// failure that the error stream reports, if it reports one, and success
/// otherwise, whatever the output stream holds.
pub open spec fn settled(outcome: OutcomeView) -> Result<(), Failure> {
    match reported(outcome.stderr) {
        Some(failure) => Err(failure),
        None => Ok(()),
    }
}

/// How `get` runs the program.
pub open spec fn get_plan(path: Seq<char>) -> Result<InvocationView, Failure> {
    session_plan(path, login_fields(path))
}

/// What `get` makes of the streams of the finished process.
pub open spec fn get_answer(outcome: OutcomeView) -> Result<Seq<char>, Failure> {
    match session_response(outcome) {
        Ok(tree) => password_in(tree),
        Err(failure) => Err(failure),
    }
}

/// How `get_usernames` runs the program.
pub open spec fn get_usernames_plan(path: Seq<char>) -> Result<InvocationView, Failure> {
    session_plan(path, query_fields(path))
}

/// What `get_usernames` makes of the streams of the finished process.
pub open spec fn get_usernames_answer(outcome: OutcomeView) -> Result<Seq<Seq<char>>, Failure> {
    match session_response(outcome) {
        Ok(tree) => usernames_in(tree),
        Err(failure) => Err(failure),
    }
}

/// How `generate` runs the program.
pub open spec fn generate_plan(path: Seq<char>, use_symbols: bool, length: int) -> Result<
    InvocationView,
    Failure,
> {
    session_plan(path, generate_fields(path, use_symbols, length))
}

/// What `generate` makes of the streams of the finished process.
pub open spec fn generate_answer(outcome: OutcomeView) -> Result<(), Failure> {
    match session_response(outcome) {
        Ok(tree) => generated_in(tree),
        Err(failure) => Err(failure),
    }
}

/// How `insert` runs the program.
pub open spec fn insert_plan(path: Seq<char>, password: Seq<char>) -> Result<
    InvocationView,
    Failure,
> {
    session_plan(path, insert_fields(path, password))
}

/// What `insert` makes of the streams of the finished process.
pub open spec fn insert_answer(outcome: OutcomeView, password: Seq<char>) -> Result<(), Failure> {
    match session_response(outcome) {
        Ok(tree) => inserted_in(tree, password),
        Err(failure) => Err(failure),
    }
}

/// The arguments with which an entry is removed: the subcommand, the flag
/// that forces the removal, and the path.
pub open spec fn remove_args(path: Seq<char>) -> Seq<Seq<char>> {
    seq!["rm"@, "-f"@, path]
}

/// How `remove` runs the program.
pub open spec fn remove_plan(path: Seq<char>) -> Result<InvocationView, Failure> {
    direct_plan(path, remove_args(path), None)
}

/// The arguments with which a password is printed: the path alone.
pub open spec fn show_args(path: Seq<char>) -> Seq<Seq<char>> {
    seq![path]
}

/// How `get_direct` runs the program.
pub open spec fn get_direct_plan(path: Seq<char>) -> Result<InvocationView, Failure> {
    direct_plan(path, show_args(path), None)
}

/// What `get_direct` makes of the streams of the finished process: the raw
/// output without one trailing line feed.
pub open spec fn get_direct_answer(outcome: OutcomeView) -> Result<Seq<char>, Failure> {
    match direct_output(outcome) {
        Ok(text) => Ok(chomped(text)),
        Err(failure) => Err(failure),
    }
}

/// The arguments with which a password is stored directly: the subcommand,
/// the flag that announces input of several lines, and the path.
pub open spec fn store_args(path: Seq<char>) -> Seq<Seq<char>> {
    seq!["insert"@, "-m"@, path]
}

/// How `insert_direct` runs the program.
pub open spec fn insert_direct_plan(path: Seq<char>, password: Seq<char>) -> Result<
    InvocationView,
    Failure,
> {
    direct_plan(path, store_args(path), Some(password))
}

/// Checks an entry path before anything is run: one that is empty, or white
/// space only, is refused.
pub fn validate_path(path: &str) -> (result: Result<(), Error>)
    ensures
        blank(path@) ==> agrees(result, Err(Failure::InvalidInput)),
        !blank(path@) ==> result is Ok,
{
    if is_blank(path) {
        Err(Error::InvalidInput)
    } else {
        Ok(())
    }
}

/// Plans a framed session for an operation on a path that is not blank.
fn session(message: &Request) -> (result: Result<Invocation, Error>)
    ensures
        match result {
            Ok(call) => fits(message@) && call@ == session_call(message@),
            Err(error) => !fits(message@) && error@ == Failure::InvalidInput,
        },
{
    match crate::framed::invocation(message) {
        Some(call) => Ok(call),
        None => Err(Error::InvalidInput),
    }
}

/// The store, reached through the external program.
pub struct PasswordStore;

impl PasswordStore {
    /// How the program is run to get the password of the entry at `path`.
    pub fn get_call(path: &str) -> (result: Result<Invocation, Error>)
        ensures
            agrees(result, get_plan(path@)),
    {
        if let Err(error) = validate_path(path) {
            return Err(error);
        }
        session(&login_request(path))
    }

    /// The password in what the process left behind: the text of the member
    /// `password` of the reply.
    pub fn get_reply(outcome: ProcessOutcome) -> (result: Result<String, Error>)
        ensures
            agrees(result, get_answer(outcome@)),
    {
        match response(outcome) {
            Ok(reply) => read_password(&reply),
            Err(error) => Err(error),
        }
    }

    /// Gets the password of the entry at `path`, in a framed session that
    /// `run` carries out.
    ///
    /// A blank path, or a request too long to be framed, is refused and
    /// `run` is not called. Else `run` is handed the invocation that sends
    /// the request, and what it returns decides the result.
    pub fn get<F: FnOnce(Invocation) -> Result<ProcessOutcome, std::io::Error>>(
        path: &str,
        run: F,
    ) -> (result: Result<String, Error>)
        requires
            accepts(run, get_plan(path@)),
        ensures
            match get_plan(path@) {
                Err(failure) => agrees(result, Err(failure)),
                Ok(call) => exists|reply: Result<ProcessOutcome, std::io::Error>|
                    answers(run, call, reply) && (match reply {
                        Ok(outcome) => agrees(result, get_answer(outcome@)),
                        Err(cause) => result == Err::<String, Error>(Error::Io(cause)),
                    }),
            },
    {
        match Self::get_call(path) {
            Err(error) => Err(error),
            Ok(call) => match execute(call, run) {
                Ok(outcome) => Self::get_reply(outcome),
                Err(error) => Err(error),
            },
        }
    }

    /// How the program is run to get the usernames of the entries under
    /// `path`.
    pub fn get_usernames_call(path: &str) -> (result: Result<Invocation, Error>)
        ensures
            agrees(result, get_usernames_plan(path@)),
    {
        if let Err(error) = validate_path(path) {
            return Err(error);
        }
        session(&query_request(path))
    }

    /// The usernames in what the process left behind: the reply has to be an
    /// array of texts, each the full path of an entry, and the username of an
    /// entry is what follows the last separator of its path.
    pub fn get_usernames_reply(outcome: ProcessOutcome) -> (result: Result<Vec<String>, Error>)
        ensures
            lists(result, get_usernames_answer(outcome@)),
    {
        match response(outcome) {
            Ok(reply) => read_usernames(&reply),
            Err(error) => Err(error),
        }
    }

    /// Gets the usernames of the entries under `path`, in a framed session
    /// that `run` carries out.
    pub fn get_usernames<F: FnOnce(Invocation) -> Result<ProcessOutcome, std::io::Error>>(
        path: &str,
        run: F,
    ) -> (result: Result<Vec<String>, Error>)
        requires
            accepts(run, get_usernames_plan(path@)),
        ensures
            match get_usernames_plan(path@) {
                Err(failure) => lists(result, Err(failure)),
                Ok(call) => exists|reply: Result<ProcessOutcome, std::io::Error>|
                    answers(run, call, reply) && (match reply {
                        Ok(outcome) => lists(result, get_usernames_answer(outcome@)),
                        Err(cause) => result == Err::<Vec<String>, Error>(Error::Io(cause)),
                    }),
            },
    {
        match Self::get_usernames_call(path) {
            Err(error) => Err(error),
            Ok(call) => match execute(call, run) {
                Ok(outcome) => Self::get_usernames_reply(outcome),
                Err(error) => Err(error),
            },
        }
    }

    /// How the program is run to have a password of `length` characters
    /// generated for the entry at `path`, with symbols if `use_symbols` is
    /// set.
    pub fn generate_call(path: &str, use_symbols: bool, length: i32) -> (result: Result<
        Invocation,
        Error,
    >)
        ensures
            agrees(result, generate_plan(path@, use_symbols, length as int)),
    {
        if let Err(error) = validate_path(path) {
            return Err(error);
        }
        session(&generate_request(path, use_symbols, length))
    }

    /// Whether what the process left behind confirms a generated password:
    /// the reply has a text member `username`.
    pub fn generate_reply(outcome: ProcessOutcome) -> (result: Result<(), Error>)
        ensures
            agrees(result, generate_answer(outcome@)),
    {
        match response(outcome) {
            Ok(reply) => check_generated(&reply),
            Err(error) => Err(error),
        }
    }

    /// Has a password generated for the entry at `path`, in a framed session
    /// that `run` carries out.
    pub fn generate<F: FnOnce(Invocation) -> Result<ProcessOutcome, std::io::Error>>(
        path: &str,
        use_symbols: bool,
        length: i32,
        run: F,
    ) -> (result: Result<(), Error>)
        requires
            accepts(run, generate_plan(path@, use_symbols, length as int)),
        ensures
            match generate_plan(path@, use_symbols, length as int) {
                Err(failure) => agrees(result, Err(failure)),
                Ok(call) => exists|reply: Result<ProcessOutcome, std::io::Error>|
                    answers(run, call, reply) && (match reply {
                        Ok(outcome) => agrees(result, generate_answer(outcome@)),
                        Err(cause) => result == Err::<(), Error>(Error::Io(cause)),
                    }),
            },
    {
        match Self::generate_call(path, use_symbols, length) {
            Err(error) => Err(error),
            Ok(call) => match execute(call, run) {
                Ok(outcome) => Self::generate_reply(outcome),
                Err(error) => Err(error),
            },
        }
    }

    /// How the program is run to store `password` in the entry at `path`.
    pub fn insert_call(path: &str, password: &str) -> (result: Result<Invocation, Error>)
        ensures
            agrees(result, insert_plan(path@, password@)),
    {
        if let Err(error) = validate_path(path) {
            return Err(error);
        }
        session(&insert_request(path, password))
    }

    /// Whether what the process left behind confirms that `password` was
    /// stored: a reply that echoes a different password is refused, one that
    /// echoes none is taken as success.
    pub fn insert_reply(outcome: ProcessOutcome, password: &str) -> (result: Result<(), Error>)
        ensures
            agrees(result, insert_answer(outcome@, password@)),
    {
        match response(outcome) {
            Ok(reply) => check_inserted(&reply, password),
            Err(error) => Err(error),
        }
    }

    /// Stores `password` in the entry at `path`, in a framed session that
    /// `run` carries out.
    pub fn insert<F: FnOnce(Invocation) -> Result<ProcessOutcome, std::io::Error>>(
        path: &str,
        password: &str,
        run: F,
    ) -> (result: Result<(), Error>)
        requires
            accepts(run, insert_plan(path@, password@)),
        ensures
            match insert_plan(path@, password@) {
                Err(failure) => agrees(result, Err(failure)),
                Ok(call) => exists|reply: Result<ProcessOutcome, std::io::Error>|
                    answers(run, call, reply) && (match reply {
                        Ok(outcome) => agrees(result, insert_answer(outcome@, password@)),
                        Err(cause) => result == Err::<(), Error>(Error::Io(cause)),
                    }),
            },
    {
        match Self::insert_call(path, password) {
            Err(error) => Err(error),
            Ok(call) => match execute(call, run) {
                Ok(outcome) => Self::insert_reply(outcome, password),
                Err(error) => Err(error),
            },
        }
    }

    /// How the program is run to remove the entry at `path`: once, directly,
    /// with the subcommand, the flag that forces the removal, and the path
    /// as the only positional argument.
    pub fn remove_call(path: &str) -> (result: Result<Invocation, Error>)
        ensures
            agrees(result, remove_plan(path@)),
    {
        if let Err(error) = validate_path(path) {
            return Err(error);
        }
        let mut args: Vec<String> = Vec::new();
        args.push("rm".to_string());
        args.push("-f".to_string());
        args.push(path.to_owned());
        assert(texts(args@) =~= remove_args(path@));
        Ok(invocation(args, None))
    }

    /// Whether what the process left behind confirms the removal: it does
    /// exactly where the error stream reports nothing.
    pub fn remove_reply(outcome: ProcessOutcome) -> (result: Result<(), Error>)
        ensures
            agrees(result, settled(outcome@)),
    {
        check_stderr(outcome.stderr)
    }

    /// Removes the entry at `path`, by one direct invocation that `run`
    /// carries out.
    pub fn remove<F: FnOnce(Invocation) -> Result<ProcessOutcome, std::io::Error>>(
        path: &str,
        run: F,
    ) -> (result: Result<(), Error>)
        requires
            accepts(run, remove_plan(path@)),
        ensures
            match remove_plan(path@) {
                Err(failure) => agrees(result, Err(failure)),
                Ok(call) => exists|reply: Result<ProcessOutcome, std::io::Error>|
                    answers(run, call, reply) && (match reply {
                        Ok(outcome) => agrees(result, settled(outcome@)),
                        Err(cause) => result == Err::<(), Error>(Error::Io(cause)),
                    }),
            },
    {
        match Self::remove_call(path) {
            Err(error) => Err(error),
            Ok(call) => match execute(call, run) {
                Ok(outcome) => Self::remove_reply(outcome),
                Err(error) => Err(error),
            },
        }
    }

    /// How the program is run to print the password of the entry at `path`:
    /// once, directly, with the path as its sole argument.
    pub fn get_direct_call(path: &str) -> (result: Result<Invocation, Error>)
        ensures
            agrees(result, get_direct_plan(path@)),
    {
        if let Err(error) = validate_path(path) {
            return Err(error);
        }
        let mut args: Vec<String> = Vec::new();
        args.push(path.to_owned());
        assert(texts(args@) =~= show_args(path@));
        Ok(invocation(args, None))
    }

    /// The password in what the process of a direct invocation left behind:
    /// its raw output without one trailing line feed.
    pub fn get_direct_reply(outcome: ProcessOutcome) -> (result: Result<String, Error>)
        ensures
            agrees(result, get_direct_answer(outcome@)),
    {
        match output(outcome) {
            Ok(text) => Ok(chomp(text.as_str()).to_owned()),
            Err(error) => Err(error),
        }
    }

    /// Gets the password of the entry at `path`, by one direct invocation
    /// that `run` carries out.
    pub fn get_direct<F: FnOnce(Invocation) -> Result<ProcessOutcome, std::io::Error>>(
        path: &str,
        run: F,
    ) -> (result: Result<String, Error>)
        requires
            accepts(run, get_direct_plan(path@)),
        ensures
            match get_direct_plan(path@) {
                Err(failure) => agrees(result, Err(failure)),
                Ok(call) => exists|reply: Result<ProcessOutcome, std::io::Error>|
                    answers(run, call, reply) && (match reply {
                        Ok(outcome) => agrees(result, get_direct_answer(outcome@)),
                        Err(cause) => result == Err::<String, Error>(Error::Io(cause)),
                    }),
            },
    {
        match Self::get_direct_call(path) {
            Err(error) => Err(error),
            Ok(call) => match execute(call, run) {
                Ok(outcome) => Self::get_direct_reply(outcome),
                Err(error) => Err(error),
            },
        }
    }

    /// How the program is run to store `password` in the entry at `path`
    /// directly: once, with the subcommand, the flag that announces input of
    /// several lines, and the path; the password, followed by a line feed,
    /// is its input.
    pub fn insert_direct_call(path: &str, password: &str) -> (result: Result<Invocation, Error>)
        ensures
            agrees(result, insert_direct_plan(path@, password@)),
    {
        if let Err(error) = validate_path(path) {
            return Err(error);
        }
        let mut args: Vec<String> = Vec::new();
        args.push("insert".to_string());
        args.push("-m".to_string());
        args.push(path.to_owned());
        assert(texts(args@) =~= store_args(path@));
        Ok(invocation(args, Some(password)))
    }

    /// Whether what the process of a direct invocation left behind confirms
    /// that the password was stored: anything that the error stream reports
    /// is a failure.
    pub fn insert_direct_reply(outcome: ProcessOutcome) -> (result: Result<(), Error>)
        ensures
            agrees(result, settled(outcome@)),
    {
        check_stderr(outcome.stderr)
    }

    /// Stores `password` in the entry at `path`, by one direct invocation
    /// that `run` carries out.
    pub fn insert_direct<F: FnOnce(Invocation) -> Result<ProcessOutcome, std::io::Error>>(
        path: &str,
        password: &str,
        run: F,
    ) -> (result: Result<(), Error>)
        requires
            accepts(run, insert_direct_plan(path@, password@)),
        ensures
            match insert_direct_plan(path@, password@) {
                Err(failure) => agrees(result, Err(failure)),
                Ok(call) => exists|reply: Result<ProcessOutcome, std::io::Error>|
                    answers(run, call, reply) && (match reply {
                        Ok(outcome) => agrees(result, settled(outcome@)),
                        Err(cause) => result == Err::<(), Error>(Error::Io(cause)),
                    }),
            },
    {
        match Self::insert_direct_call(path, password) {
            Err(error) => Err(error),
            Ok(call) => match execute(call, run) {
                Ok(outcome) => Self::insert_direct_reply(outcome),
                Err(error) => Err(error),
            },
        }
    }
}

} // verus!
