//! What holds of the operations on every input.

use crate::bridge::{
    counted,
    is_digit,
    json_parse,
    overrun,
    overrun_at,
    MAX_COUNTED_DIGITS,
    ZERO,
};
use crate::direct::{direct_output, LINE_FEED_BYTE};
use crate::parse::parsed;
use crate::error::Failure;
use crate::framed::session_response;
use crate::frame::{framed, le_bytes, le_value, unframed, MAX_PAYLOAD, MSG_SIZE};
use crate::process::{reported, InvocationView, OutcomeView};
use crate::reply::{
    inserted_in,
    lemma_name_start,
    name_start,
    password_in,
    username,
    usernames_in,
    SEPARATOR,
};
use crate::request::{
    distinct,
    filled,
    generate_fields,
    insert_fields,
    lemma_filled_distinct,
    login_fields,
    query_fields,
};
use crate::store::{
    generate_answer,
    generate_plan,
    get_answer,
    get_direct_answer,
    get_direct_plan,
    get_plan,
    get_usernames_answer,
    get_usernames_plan,
    insert_answer,
    insert_direct_plan,
    insert_plan,
    remove_plan,
    settled,
};
use crate::text::{blank, chomped, LINE_FEED};
use crate::value::Tree;
use vstd::prelude::*;
use vstd::utf8::{
    decode_utf8,
    decode_utf8_encode_utf8,
    encode_utf8,
    encode_utf8_decode_utf8,
    encode_utf8_valid_utf8,
    valid_utf8,
};

verus! {

/// The empty path is blank.
pub proof fn law_empty_path_is_blank()
    ensures
        blank(Seq::<char>::empty()),
{
}

/// For a blank path every operation fails with `InvalidInput`, and does so in
/// its plan: there is no invocation to run.
pub proof fn law_blank_path_is_refused(
    path: Seq<char>,
    password: Seq<char>,
    use_symbols: bool,
    length: int,
)
    requires
        blank(path),
    ensures
        get_plan(path) == Err::<InvocationView, Failure>(Failure::InvalidInput),
        get_usernames_plan(path) == Err::<InvocationView, Failure>(Failure::InvalidInput),
        generate_plan(path, use_symbols, length) == Err::<InvocationView, Failure>(Failure::InvalidInput),
        insert_plan(path, password) == Err::<InvocationView, Failure>(Failure::InvalidInput),
        remove_plan(path) == Err::<InvocationView, Failure>(Failure::InvalidInput),
        get_direct_plan(path) == Err::<InvocationView, Failure>(Failure::InvalidInput),
        insert_direct_plan(path, password) == Err::<InvocationView, Failure>(Failure::InvalidInput),
{
}

/// The requests of the operations are written with their fields as they
/// stand, in order: no field shares its name with another.
pub proof fn law_requests_are_written_as_given(
    path: Seq<char>,
    password: Seq<char>,
    use_symbols: bool,
    length: int,
)
    ensures
        filled(login_fields(path)) == login_fields(path),
        filled(query_fields(path)) == query_fields(path),
        filled(generate_fields(path, use_symbols, length)) == generate_fields(
            path,
            use_symbols,
            length,
        ),
        filled(insert_fields(path, password)) == insert_fields(path, password),
{
    reveal_strlit("type");
    reveal_strlit("entry");
    reveal_strlit("query");
    reveal_strlit("entry_name");
    reveal_strlit("password");
    reveal_strlit("generate");
    reveal_strlit("length");
    reveal_strlit("use_symbols");
    let login = login_fields(path);
    assert(distinct(login)) by {
        assert(login[0].0[0] == 't' && login[1].0[0] == 'e');
    }
    lemma_filled_distinct(login);
    let query = query_fields(path);
    assert(distinct(query)) by {
        assert(query[0].0[0] == 't' && query[1].0[0] == 'q');
    }
    lemma_filled_distinct(query);
    let generate = generate_fields(path, use_symbols, length);
    assert(distinct(generate)) by {
        assert(generate[0].0[0] == 't' && generate[1].0[0] == 'e' && generate[2].0[0] == 'p'
            && generate[3].0[0] == 'g' && generate[4].0[0] == 'l' && generate[5].0[0] == 'u');
    }
    lemma_filled_distinct(generate);
    let insert = insert_fields(path, password);
    assert(distinct(insert)) by {
        assert(insert[0].0[0] == 't' && insert[1].0[0] == 'e' && insert[2].0[0] == 'p');
    }
    lemma_filled_distinct(insert);
}

/// An error stream whose text, without a trailing line feed, is not empty
/// makes every operation fail with that very text, whatever the output
/// stream holds.
pub proof fn law_error_stream_decides(outcome: OutcomeView, password: Seq<char>)
    requires
        valid_utf8(outcome.stderr),
        chomped(decode_utf8(outcome.stderr)).len() > 0,
    ensures
        reported(outcome.stderr) == Some(Failure::Pass(chomped(decode_utf8(outcome.stderr)))),
        direct_output(outcome) == Err::<Seq<char>, Failure>(reported(outcome.stderr)->0),
        session_response(outcome) == Err::<Tree, Failure>(reported(outcome.stderr)->0),
        get_answer(outcome) == Err::<Seq<char>, Failure>(reported(outcome.stderr)->0),
        get_usernames_answer(outcome) == Err::<Seq<Seq<char>>, Failure>(reported(outcome.stderr)->0),
        generate_answer(outcome) == Err::<(), Failure>(reported(outcome.stderr)->0),
        insert_answer(outcome, password) == Err::<(), Failure>(reported(outcome.stderr)->0),
        settled(outcome) == Err::<(), Failure>(reported(outcome.stderr)->0),
        get_direct_answer(outcome) == Err::<Seq<char>, Failure>(reported(outcome.stderr)->0),
{
}

/// The bytes of a lone line feed are the text of a lone line feed.
proof fn lemma_line_feed()
    ensures
        encode_utf8(seq![LINE_FEED]) == seq![LINE_FEED_BYTE],
{
    let text = seq![LINE_FEED];
    assert(text.drop_first() =~= Seq::<char>::empty());
    assert(encode_utf8(text.drop_first()) =~= Seq::<u8>::empty());
    assert((LINE_FEED as u32) == 0x0A);
    assert(0x0Au32 & 0x7F == 0x0A) by (bit_vector);
    assert(encode_utf8(text) =~= seq![LINE_FEED_BYTE]);
}

/// An operation that only asks whether the run succeeded, as the removal of
/// an entry does, succeeds exactly where the error stream is empty or holds
/// but a line feed.
pub proof fn law_success_is_a_silent_error_stream(outcome: OutcomeView)
    ensures
        settled(outcome) is Ok <==> (outcome.stderr == Seq::<u8>::empty() || outcome.stderr
            == seq![LINE_FEED_BYTE]),
{
    let stderr = outcome.stderr;
    lemma_line_feed();
    if stderr =~= Seq::<u8>::empty() {
        assert(decode_utf8(stderr) =~= Seq::<char>::empty());
    } else if stderr =~= seq![LINE_FEED_BYTE] {
        encode_utf8_valid_utf8(seq![LINE_FEED]);
        encode_utf8_decode_utf8(seq![LINE_FEED]);
        assert(chomped(seq![LINE_FEED]) =~= Seq::<char>::empty());
    } else if valid_utf8(stderr) {
        let text = decode_utf8(stderr);
        decode_utf8_encode_utf8(stderr);
        if text.len() == 0 {
            assert(text =~= Seq::<char>::empty());
            assert(encode_utf8(text) =~= Seq::<u8>::empty());
        } else if chomped(text).len() == 0 {
            assert(text =~= seq![LINE_FEED]);
        }
    }
}

/// A reply that echoes the stored password, or echoes none, confirms the
/// insertion; one that echoes another password is refused. A later reply
/// that carries the stored password gives it back.
pub proof fn law_stored_password_comes_back(reply: Tree, password: Seq<char>)
    ensures
        reply.member_text("password"@) is None ==> inserted_in(reply, password) is Ok,
        reply.member_text("password"@) == Some(password) ==> inserted_in(reply, password) is Ok
            && password_in(reply) == Ok::<Seq<char>, Failure>(password),
        reply.member_text("password"@) is Some && reply.member_text("password"@) != Some(password)
            ==> inserted_in(reply, password) == Err::<(), Failure>(Failure::InvalidOutput),
{
}

/// The username of an entry is the tail of its path that holds no separator
/// and has the start of the path or a separator before it. A path without a
/// separator is its own username.
pub proof fn law_username_follows_the_last_separator(entry: Seq<char>)
    ensures
        0 <= name_start(entry) <= entry.len(),
        entry == entry.take(name_start(entry)) + username(entry),
        forall|i: int| 0 <= i < username(entry).len() ==> username(entry)[i] != SEPARATOR,
        name_start(entry) > 0 ==> entry[name_start(entry) - 1] == SEPARATOR,
        (forall|i: int| 0 <= i < entry.len() ==> entry[i] != SEPARATOR) ==> username(entry)
            == entry,
{
    lemma_name_start(entry);
    assert(entry =~= entry.take(name_start(entry)) + username(entry));
    if forall|i: int| 0 <= i < entry.len() ==> entry[i] != SEPARATOR {
        assert(username(entry) =~= entry);
    }
}

/// A reply that is no array carries no usernames.
pub proof fn law_usernames_need_an_array(reply: Tree)
    requires
        !(reply is Array),
    ensures
        usernames_in(reply) == Err::<Seq<Seq<char>>, Failure>(Failure::InvalidOutput),
{
}

/// The prefix of a framed message states the length of its payload, and the
/// payload is what follows the prefix.
pub proof fn law_prefix_states_the_length(payload: Seq<u8>)
    requires
        payload.len() <= MAX_PAYLOAD,
    ensures
        framed(payload).len() == MSG_SIZE + payload.len(),
        le_value(framed(payload).take(MSG_SIZE as int)) == payload.len(),
        unframed(framed(payload)) == payload,
{
    let prefix = le_bytes(payload.len() as int);
    assert(framed(payload).take(MSG_SIZE as int) =~= prefix);
    assert(framed(payload).skip(MSG_SIZE as int) =~= payload);
}

/// No more digits are counted than stand in the text.
proof fn lemma_counted_is_bounded(bytes: Seq<u8>, from: int, mantissa: int, count: int)
    requires
        0 <= from <= bytes.len(),
    ensures
        counted(bytes, from, mantissa, count) <= count + (bytes.len() - from),
    decreases bytes.len() - from,
{
    if from < bytes.len() && is_digit(bytes[from]) {
        if mantissa * 10 + (bytes[from] - ZERO) <= u64::MAX {
            lemma_counted_is_bounded(
                bytes,
                from + 1,
                mantissa * 10 + (bytes[from] - ZERO),
                count + 1,
            );
        } else {
            lemma_counted_is_bounded(bytes, from + 1, mantissa, count);
        }
    }
}

/// A text is rejected unread only for a number with more digits than the
/// parser counts: a text that is not empty and no longer than that count,
/// the zero and the point is read as the parser reads it.
pub proof fn law_short_texts_are_left_to_the_parser(text: Seq<char>)
    requires
        0 < text.len(),
        encode_utf8(text).len() <= MAX_COUNTED_DIGITS + 2,
    ensures
        !overrun(encode_utf8(text)),
        parsed(text) == json_parse(text),
{
    let bytes = encode_utf8(text);
    assert forall|zero: int| !overrun_at(bytes, zero) by {
        if 0 <= zero && zero + 1 < bytes.len() {
            lemma_counted_is_bounded(bytes, zero + 2, 0, 0);
        }
    }
}

/// An output stream that holds no more than a prefix has no payload: with a
/// silent error stream, the reply fails to parse.
pub proof fn law_stream_without_payload_fails_to_parse(outcome: OutcomeView)
    requires
        reported(outcome.stderr) is None,
        outcome.stdout.len() <= MSG_SIZE,
    ensures
        session_response(outcome) == Err::<Tree, Failure>(Failure::Json),
{
    assert(unframed(outcome.stdout) =~= Seq::<u8>::empty());
    assert(decode_utf8(Seq::<u8>::empty()) =~= Seq::<char>::empty());
}

/// The first four bytes of the output stream are not read: two runs that
/// differ in them alone are decoded alike.
pub proof fn law_prefix_is_not_read(first: OutcomeView, second: OutcomeView)
    requires
        first.stderr == second.stderr,
        first.stdout.len() >= MSG_SIZE,
        second.stdout.len() >= MSG_SIZE,
        first.stdout.skip(MSG_SIZE as int) == second.stdout.skip(MSG_SIZE as int),
    ensures
        session_response(first) == session_response(second),
{
}

} // verus!
