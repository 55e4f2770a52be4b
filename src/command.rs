//! Lines typed by the operator of an interactive client.

use vstd::prelude::*;
use vstd::string::{StrSliceExecFns, StringExecFns};

use crate::protocol::Urgency;

verus! {

/// What one typed line asks for.
#[derive(Debug, Clone, PartialEq, Eq)]
pub enum Command {
    /// A blank line: nothing to do.
    Skip,
    /// Close the session.
    Quit,
    /// Send a packet of this urgency and text.
    Send(Urgency, String),
}

/// `s` followed by anything.
pub open spec fn starts_with(t: Seq<char>, s: Seq<char>) -> bool {
    t.len() >= s.len() && t.subrange(0, s.len() as int) == s
}

/// The urgency that a non-blank line other than the quit command sends.
pub open spec fn send_urgency(t: Seq<char>) -> Urgency {
    if starts_with(t, "!critical "@) {
        Urgency::Red
    } else if starts_with(t, "!elevated "@) {
        Urgency::Yellow
    } else {
        Urgency::Green
    }
}

/// The text that a non-blank line other than the quit command sends.
pub open spec fn send_text(t: Seq<char>) -> Seq<char> {
    if starts_with(t, "!critical "@) {
        t.subrange("!critical "@.len() as int, t.len() as int)
    } else if starts_with(t, "!elevated "@) {
        t.subrange("!elevated "@.len() as int, t.len() as int)
    } else {
        t
    }
}

/// `s` with leading and trailing whitespace removed.
pub uninterp spec fn trim_of(s: Seq<char>) -> Seq<char>;

/// Relies on `str::trim`: removes leading and trailing white space.
#[verifier::external_body]
fn trimmed(s: &str) -> (r: &str)
    ensures
        r@ == trim_of(s@),
{
    s.trim()
}

/// Whether `t` begins with `p`.
fn has_prefix(t: &str, p: &str) -> (r: bool)
    ensures
        r == starts_with(t@, p@),
{
    let n = t.unicode_len();
    let m = p.unicode_len();
    if n < m {
        return false;
    }
    let mut i: usize = 0;
    while i < m
        invariant
            m == p@.len(),
            n == t@.len(),
            m <= n,
            i <= m,
            t@.subrange(0, i as int) == p@.subrange(0, i as int),
        decreases m - i,
    {
        if t.get_char(i) != p.get_char(i) {
            assert(t@.subrange(0, m as int)[i as int] != p@[i as int]);
            return false;
        }
        assert(t@.subrange(0, i + 1) =~= t@.subrange(0, i as int).push(t@[i as int]));
        assert(p@.subrange(0, i + 1) =~= p@.subrange(0, i as int).push(p@[i as int]));
        i = i + 1;
    }
    assert(p@.subrange(0, m as int) =~= p@);
    true
}

/// Read an already trimmed line: empty is `Skip`, `!quit` is `Quit`,
/// `!critical <msg>` and `!elevated <msg>` send `<msg>` as `Red` and
/// `Yellow`, and any other line is sent whole as `Green`.
pub fn classify_command(t: &str) -> (c: Command)
    ensures
        t@.len() == 0 ==> c == Command::Skip,
        t@ == "!quit"@ ==> c == Command::Quit,
        t@.len() != 0 && t@ != "!quit"@ ==> (c matches Command::Send(u, s) && u == send_urgency(t@)
            && s@ == send_text(t@)),
{
    proof {
        reveal_strlit("!quit");
        reveal_strlit("!critical ");
        reveal_strlit("!elevated ");
    }
    let n = t.unicode_len();
    if n == 0 {
        return Command::Skip;
    }
    if n == 5 && has_prefix(t, "!quit") {
        assert(t@ =~= "!quit"@);
        return Command::Quit;
    }
    proof {
        if t@.len() == 5 {
            assert(t@.subrange(0, 5) =~= t@);
        }
    }
    if has_prefix(t, "!critical ") {
        Command::Send(Urgency::Red, String::from_str(t.substring_char(10, n)))
    } else if has_prefix(t, "!elevated ") {
        Command::Send(Urgency::Yellow, String::from_str(t.substring_char(10, n)))
    } else {
        Command::Send(Urgency::Green, String::from_str(t))
    }
}

/// Read a line as typed: surrounding white space is ignored.
pub fn parse_command(line: &str) -> (c: Command)
    ensures
        trim_of(line@).len() == 0 ==> c == Command::Skip,
        trim_of(line@) == "!quit"@ ==> c == Command::Quit,
        trim_of(line@).len() != 0 && trim_of(line@) != "!quit"@ ==> (c matches Command::Send(u, s)
            && u == send_urgency(trim_of(line@)) && s@ == send_text(trim_of(line@))),
{
    classify_command(trimmed(line))
}

} // verus!
