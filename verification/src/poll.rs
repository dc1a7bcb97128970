//! Polling: what counts as a poll id, and the call to the runner that a poll asks for.
use vstd::prelude::*;
use vstd::utf8::{is_ascii_chars, is_ascii_chars_encode_utf8};

use crate::types::{AccountId, Error};

verus! {

/// The call that runs a workflow: the JavaScript runner is to execute the command line.
#[derive(Debug)]
pub struct RunCall {
    pub js_runner: AccountId,
    pub commandline: String,
}

/// View of a [`RunCall`].
pub struct RunCallView {
    pub js_runner: AccountId,
    pub commandline: Seq<char>,
}

impl View for RunCall {
    type V = RunCallView;

    open spec fn view(&self) -> RunCallView {
        RunCallView { js_runner: self.js_runner, commandline: self.commandline@ }
    }
}

/// Most characters that a poll id has.
pub const MAX_POLL_ID_LEN: usize = 16;

/// Whether `c` may occur in a poll id: a letter or a digit of ASCII, `_` or `-`.
pub open spec fn is_poll_id_char(c: char) -> bool {
    ||| 'a' <= c <= 'z'
    ||| 'A' <= c <= 'Z'
    ||| '0' <= c <= '9'
    ||| c == '_'
    ||| c == '-'
}

/// Whether `poll_id` is a poll id: short, and free of characters with a meaning elsewhere.
pub open spec fn is_poll_id(poll_id: Seq<char>) -> bool {
    &&& poll_id.len() <= MAX_POLL_ID_LEN
    &&& forall|i: int| 0 <= i < poll_id.len() ==> is_poll_id_char(#[trigger] poll_id[i])
}

/// Tests whether `poll_id` is a poll id.
pub fn check_poll_id(poll_id: &str) -> (r: bool)
    ensures
        r == is_poll_id(poll_id@),
{
    proof {
        if is_poll_id(poll_id@) {
            assert(is_ascii_chars(poll_id@));
            is_ascii_chars_encode_utf8(poll_id@);
        }
    }
    if poll_id.as_bytes().len() > MAX_POLL_ID_LEN {
        return false;
    }
    for c in it: poll_id.chars()
        invariant
            it.seq() == poll_id@,
            forall|i: int| 0 <= i < it.index() ==> is_poll_id_char(#[trigger] poll_id@[i]),
    {
        let lower: bool = 'a' <= c && c <= 'z';
        let upper: bool = 'A' <= c && c <= 'Z';
        let digit: bool = '0' <= c && c <= '9';
        if !(lower || upper || digit || c == '_' || c == '-') {
            return false;
        }
    }
    proof {
        assert(is_ascii_chars(poll_id@));
        is_ascii_chars_encode_utf8(poll_id@);
    }
    true
}

/// What the runner's reply means for the poll that asked for the call: it is the answer.
pub fn finish_poll(reply: bool) -> (r: Result<bool, Error>)
    ensures
        r == Ok::<bool, Error>(reply),
{
    Ok(reply)
}

/// A text is a poll id if and only if it has at most sixteen characters, each of them, by its
/// number, a digit, a capital letter, a small letter, an underscore or a hyphen of ASCII.
pub proof fn law_poll_ids_are_short_and_plain(text: Seq<char>)
    ensures
        is_poll_id(text) <==> text.len() <= 16 && forall|i: int|
            0 <= i < text.len() ==> {
                let c = (#[trigger] text[i]) as int;
                48 <= c <= 57 || 65 <= c <= 90 || 97 <= c <= 122 || c == 95 || c == 45
            },
{
}

/// Two texts are a poll id together if and only if each of them is one and both are short enough.
pub proof fn law_parts_of_poll_ids_are_poll_ids(a: Seq<char>, b: Seq<char>)
    ensures
        is_poll_id(a + b) <==> is_poll_id(a) && is_poll_id(b) && a.len() + b.len() <= 16,
{
    let both = a + b;
    if is_poll_id(both) {
        assert forall|i: int| 0 <= i < a.len() implies is_poll_id_char(#[trigger] a[i]) by {
            assert(both[i] == a[i]);
        }
        assert forall|i: int| 0 <= i < b.len() implies is_poll_id_char(#[trigger] b[i]) by {
            assert(both[a.len() + i] == b[i]);
        }
    }
}

/// The view of a call shows what the call holds.
pub proof fn law_run_call_is_shown_as_it_is(call: RunCall)
    ensures
        call@.js_runner == call.js_runner,
        call@.commandline == call.commandline@,
{
}

} // verus!
