//! Per-connection listener decisions.
//!
//! The accept loop outside the library reads one framed request per
//! connection and hands the payload bytes here.  This module decides what
//! every byte sequence means and what to reply: the acknowledgement is a
//! function of the request alone, so a client hears back before — and
//! regardless of whether — the engine has applied the command.
//!
//! The module also keeps the plain-text command form that the first
//! pipe-based draft of the daemon read: one word, taken from the front of
//! the line, with words separated by Unicode white space.

use crate::messages::{spec_decode_client, ClientMessage, ServerMessage};
use vstd::prelude::*;
use vstd::string::StrSliceExecFns;

verus! {

/// The acknowledgement owed to a request payload: receipt is confirmed
/// exactly when the payload decodes to a command; anything else is a
/// superficially invalid request.  The engine's state plays no part.
pub open spec fn spec_ack(payload: Seq<u8>) -> ServerMessage {
    if spec_decode_client(payload) is Some {
        ServerMessage::Okay
    } else {
        ServerMessage::InvalidCommand
    }
}

/// Decodes one request payload and picks the reply.
///
/// The decoded command (when there is one) goes to the engine's queue
/// fire-and-forget; the reply confirms receipt, not application, and is
/// computed from the payload alone.
pub fn process_payload(payload: &[u8]) -> (r: (Option<ClientMessage>, ServerMessage))
    ensures
        r.1 == spec_ack(payload@),
        match spec_decode_client(payload@) {
            Some(mv) => r.0 matches Some(m) && m@ == mv,
            None => r.0 is None,
        },
{
    match ClientMessage::deserialize(payload) {
        Ok(m) => (Some(m), ServerMessage::Okay),
        Err(_) => (None, ServerMessage::InvalidCommand),
    }
}

/// The plain-text command set of the early pipe-based daemon.
#[derive(Debug, Clone, Copy, PartialEq, Eq, Structural)]
pub enum Command {
    Reset,
    Stop,
    Start,
    Noop,
}

/// Unicode white space: the characters that separate words of a text
/// command line, exactly the set `char::is_whitespace` accepts.
pub open spec fn spec_is_space(c: char) -> bool {
    c == ' ' || c == '\u{0009}' || c == '\u{000A}' || c == '\u{000B}' || c == '\u{000C}' || c
        == '\u{000D}' || c == '\u{0085}' || c == '\u{00A0}' || c == '\u{1680}' || c
        == '\u{2000}' || c == '\u{2001}' || c == '\u{2002}' || c == '\u{2003}' || c
        == '\u{2004}' || c == '\u{2005}' || c == '\u{2006}' || c == '\u{2007}' || c
        == '\u{2008}' || c == '\u{2009}' || c == '\u{200A}' || c == '\u{2028}' || c
        == '\u{2029}' || c == '\u{202F}' || c == '\u{205F}' || c == '\u{3000}'
}

/// A line's first word: what stands between the leading white space and
/// the next white space (or the end).
pub open spec fn spec_first_word(s: Seq<char>) -> Seq<char>
    decreases s.len(),
{
    if s.len() == 0 {
        s
    } else if spec_is_space(s[0]) {
        spec_first_word(s.drop_first())
    } else {
        spec_take_word(s)
    }
}

/// The longest white-space-free prefix.
pub open spec fn spec_take_word(s: Seq<char>) -> Seq<char>
    decreases s.len(),
{
    if s.len() == 0 || spec_is_space(s[0]) {
        Seq::empty()
    } else {
        seq![s[0]] + spec_take_word(s.drop_first())
    }
}

/// The word `reset`.
pub open spec fn spec_word_reset() -> Seq<char> {
    seq!['r', 'e', 's', 'e', 't']
}

/// The word `stop`.
pub open spec fn spec_word_stop() -> Seq<char> {
    seq!['s', 't', 'o', 'p']
}

/// The word `start`.
pub open spec fn spec_word_start() -> Seq<char> {
    seq!['s', 't', 'a', 'r', 't']
}

/// The command a text line carries: its first word, or `Noop` when the
/// word is unknown or the line is blank.
pub open spec fn spec_parse_command(s: Seq<char>) -> Command {
    let w = spec_first_word(s);
    if w.len() == 0 {
        Command::Noop
    } else if w == spec_word_reset() {
        Command::Reset
    } else if w == spec_word_stop() {
        Command::Stop
    } else if w == spec_word_start() {
        Command::Start
    } else {
        Command::Noop
    }
}

/// A white-space-free stretch that white space (or the end) closes is
/// exactly what `spec_take_word` reads from its start.
proof fn lemma_take_word_range(s: Seq<char>, i: int, j: int)
    requires
        0 <= i <= j <= s.len(),
        forall|t: int| i <= t < j ==> !spec_is_space(s[t]),
        j == s.len() || spec_is_space(s[j]),
    ensures
        spec_take_word(s.skip(i)) == s.subrange(i, j),
    decreases j - i,
{
    if i == j {
        assert(s.skip(i).len() == 0 || spec_is_space(s.skip(i)[0]));
        assert(s.subrange(i, j) =~= Seq::<char>::empty());
    } else {
        lemma_take_word_range(s, i + 1, j);
        assert(s.skip(i).drop_first() =~= s.skip(i + 1));
        assert(seq![s[i]] + s.subrange(i + 1, j) =~= s.subrange(i, j));
    }
}

/// Dropping leading white space leaves the first word alone.
proof fn lemma_first_word_skip_spaces(s: Seq<char>, i: int)
    requires
        0 <= i <= s.len(),
        forall|t: int| 0 <= t < i ==> spec_is_space(s[t]),
    ensures
        spec_first_word(s) == spec_first_word(s.skip(i)),
    decreases i,
{
    if i == 0 {
        assert(s.skip(0) =~= s);
    } else {
        lemma_first_word_skip_spaces(s, i - 1);
        assert(s.skip(i - 1)[0] == s[i - 1]);
        assert(s.skip(i - 1).drop_first() =~= s.skip(i));
    }
}

/// Whether `c` is Unicode white space.
fn is_space(c: char) -> (r: bool)
    ensures
        r == spec_is_space(c),
{
    c == ' ' || c == '\u{0009}' || c == '\u{000A}' || c == '\u{000B}' || c == '\u{000C}' || c
        == '\u{000D}' || c == '\u{0085}' || c == '\u{00A0}' || c == '\u{1680}' || c
        == '\u{2000}' || c == '\u{2001}' || c == '\u{2002}' || c == '\u{2003}' || c
        == '\u{2004}' || c == '\u{2005}' || c == '\u{2006}' || c == '\u{2007}' || c
        == '\u{2008}' || c == '\u{2009}' || c == '\u{200A}' || c == '\u{2028}' || c
        == '\u{2029}' || c == '\u{202F}' || c == '\u{205F}' || c == '\u{3000}'
}

/// The first position at or after `i` that holds something other than
/// white space (or the end).
fn skip_spaces(s: &str, i: usize) -> (r: usize)
    requires
        i <= s@.len(),
    ensures
        i <= r <= s@.len(),
        forall|t: int| i <= t < r ==> spec_is_space(s@[t]),
        r < s@.len() ==> !spec_is_space(s@[r as int]),
    decreases s@.len() - i,
{
    if i == s.unicode_len() {
        return i;
    }
    if is_space(s.get_char(i)) {
        skip_spaces(s, i + 1)
    } else {
        i
    }
}

/// The first white-space position at or after `i` (or the end).
fn scan_word(s: &str, i: usize) -> (r: usize)
    requires
        i <= s@.len(),
    ensures
        i <= r <= s@.len(),
        forall|t: int| i <= t < r ==> !spec_is_space(s@[t]),
        r < s@.len() ==> spec_is_space(s@[r as int]),
    decreases s@.len() - i,
{
    if i == s.unicode_len() {
        return i;
    }
    if is_space(s.get_char(i)) {
        i
    } else {
        scan_word(s, i + 1)
    }
}

/// Compares the characters of `s` between `start` and `end` with a word.
fn word_eq(s: &str, start: usize, end: usize, w: &Vec<char>) -> (r: bool)
    requires
        start <= end <= s@.len(),
    ensures
        r == (s@.subrange(start as int, end as int) == w@),
{
    if end - start != w.len() {
        return false;
    }
    let mut t: usize = 0;
    while t < w.len()
        invariant
            start <= end <= s@.len(),
            end - start == w@.len(),
            t <= w@.len(),
            forall|u: int| 0 <= u < t ==> s@[start + u] == w@[u],
        decreases w@.len() - t,
    {
        if s.get_char(start + t) != w[t] {
            proof {
                assert(s@.subrange(start as int, end as int)[t as int] != w@[t as int]);
            }
            return false;
        }
        t = t + 1;
    }
    proof {
        assert(s@.subrange(start as int, end as int) =~= w@);
    }
    true
}

/// Reads the text command a line carries: the first word, with words
/// separated by Unicode white space.
pub fn parse_command(command: &str) -> (r: Command)
    ensures
        r == spec_parse_command(command@),
{
    let n = command.unicode_len();
    let i = skip_spaces(command, 0);
    proof {
        lemma_first_word_skip_spaces(command@, i as int);
    }
    if i == n {
        proof {
            assert(command@.skip(i as int).len() == 0);
        }
        return Command::Noop;
    }
    let j = scan_word(command, i);
    proof {
        assert(!spec_is_space(command@.skip(i as int)[0]));
        lemma_take_word_range(command@, i as int, j as int);
        assert(spec_first_word(command@) == command@.subrange(i as int, j as int));
    }
    let reset: Vec<char> = vec!['r', 'e', 's', 'e', 't'];
    let stop: Vec<char> = vec!['s', 't', 'o', 'p'];
    let start: Vec<char> = vec!['s', 't', 'a', 'r', 't'];
    proof {
        assert(reset@ =~= spec_word_reset());
        assert(stop@ =~= spec_word_stop());
        assert(start@ =~= spec_word_start());
    }
    if word_eq(command, i, j, &reset) {
        Command::Reset
    } else if word_eq(command, i, j, &stop) {
        Command::Stop
    } else if word_eq(command, i, j, &start) {
        Command::Start
    } else {
        Command::Noop
    }
}

} // verus!
