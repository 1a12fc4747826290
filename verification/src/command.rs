//! Reading a command line.
//!
//! A line is first freed of the blanks at its two ends. What stands before its
//! first space is the command word; what stands behind that space is the
//! argument, which may hold further spaces.

use vstd::prelude::*;
use vstd::string::{StrSliceExecFns, StringExecFns};
use crate::task::TaskError;
use crate::text::{chars_of, parse_position, position_of, same_text};

verus! {

/// Whether `c` is white space: one of the characters that Unicode marks as `White_Space`.
pub open spec fn is_space(c: char) -> bool {
    ||| ('\u{9}' <= c && c <= '\u{d}')
    ||| c == ' '
    ||| c == '\u{85}'
    ||| c == '\u{a0}'
    ||| c == '\u{1680}'
    ||| ('\u{2000}' <= c && c <= '\u{200a}')
    ||| c == '\u{2028}'
    ||| c == '\u{2029}'
    ||| c == '\u{202f}'
    ||| c == '\u{205f}'
    ||| c == '\u{3000}'
}

/// `s` without the white space at its front.
pub open spec fn trim_front(s: Seq<char>) -> Seq<char>
    decreases s.len(),
{
    if s.len() > 0 && is_space(s.first()) {
        trim_front(s.drop_first())
    } else {
        s
    }
}

/// `s` without the white space at its back.
pub open spec fn trim_back(s: Seq<char>) -> Seq<char>
    decreases s.len(),
{
    if s.len() > 0 && is_space(s.last()) {
        trim_back(s.drop_last())
    } else {
        s
    }
}

/// `s` without the white space at its two ends.
pub open spec fn trimmed(s: Seq<char>) -> Seq<char> {
    trim_back(trim_front(s))
}

/// The index of the first space (U+0020) in `s`, or the length of `s` if it has none.
pub open spec fn first_blank(s: Seq<char>) -> int
    decreases s.len(),
{
    if s.len() == 0 || s.first() == ' ' {
        0
    } else {
        1 + first_blank(s.drop_first())
    }
}

/// The command word of a line: what stands before the first space of the trimmed line.
pub open spec fn command_word(line: Seq<char>) -> Seq<char> {
    let t = trimmed(line);
    t.subrange(0, first_blank(t))
}

/// The argument of a line: what stands behind the first space of the trimmed
/// line; empty where the trimmed line has no space.
pub open spec fn command_argument(line: Seq<char>) -> Seq<char> {
    let t = trimmed(line);
    let k = first_blank(t);
    if k < t.len() {
        t.subrange(k + 1, t.len() as int)
    } else {
        Seq::empty()
    }
}

/// Where the white space at the front of `s` ends, `trim_front` cuts.
pub proof fn lemma_trim_front(s: Seq<char>, a: int)
    requires
        0 <= a <= s.len(),
        forall|i: int| 0 <= i < a ==> is_space(#[trigger] s[i]),
        a < s.len() ==> !is_space(s[a]),
    ensures
        trim_front(s) == s.subrange(a, s.len() as int),
    decreases a,
{
    if a == 0 {
        assert(s.subrange(0, s.len() as int) =~= s);
    } else {
        let rest = s.drop_first();
        assert(is_space(s[0]));
        assert forall|i: int| 0 <= i < a - 1 implies is_space(#[trigger] rest[i]) by {
            assert(rest[i] == s[i + 1]);
        }
        lemma_trim_front(rest, a - 1);
        assert(rest.subrange(a - 1, rest.len() as int) =~= s.subrange(a, s.len() as int));
    }
}

/// Where the white space at the back of `s` begins, `trim_back` cuts.
pub proof fn lemma_trim_back(s: Seq<char>, b: int)
    requires
        0 <= b <= s.len(),
        forall|i: int| b <= i < s.len() ==> is_space(#[trigger] s[i]),
        0 < b ==> !is_space(s[b - 1]),
    ensures
        trim_back(s) == s.subrange(0, b),
    decreases s.len() - b,
{
    if b == s.len() {
        assert(s.subrange(0, b) =~= s);
    } else {
        let rest = s.drop_last();
        assert(is_space(s[s.len() - 1]));
        lemma_trim_back(rest, b);
        assert(rest.subrange(0, b) =~= s.subrange(0, b));
    }
}

/// The first space of `s` stands where no space stands before it.
pub proof fn lemma_first_blank(s: Seq<char>, k: int)
    requires
        0 <= k <= s.len(),
        forall|i: int| 0 <= i < k ==> #[trigger] s[i] != ' ',
        k < s.len() ==> s[k] == ' ',
    ensures
        first_blank(s) == k,
    decreases k,
{
    if k > 0 {
        let rest = s.drop_first();
        assert(s[0] != ' ');
        assert forall|i: int| 0 <= i < k - 1 implies #[trigger] rest[i] != ' ' by {
            assert(rest[i] == s[i + 1]);
        }
        lemma_first_blank(rest, k - 1);
    }
}

/// Whether `c` is white space.
pub fn is_whitespace(c: char) -> (space: bool)
    ensures
        space == is_space(c),
{
    (c >= '\u{9}' && c <= '\u{d}') || c == ' ' || c == '\u{85}' || c == '\u{a0}' || c == '\u{1680}'
        || (c >= '\u{2000}' && c <= '\u{200a}') || c == '\u{2028}' || c == '\u{2029}' || c
        == '\u{202f}' || c == '\u{205f}' || c == '\u{3000}'
}

/// Splits a line into its command word and its argument.
pub fn split_line<'a>(line: &'a str) -> (parts: (&'a str, &'a str))
    ensures
        parts.0@ == command_word(line@),
        parts.1@ == command_argument(line@),
{
    let chars = chars_of(line);
    let n = chars.len();
    let mut a: usize = 0;
    while a < n && is_whitespace(chars[a])
        invariant
            a <= n,
            n == chars@.len(),
            forall|i: int| 0 <= i < a ==> is_space(#[trigger] chars@[i]),
        decreases n - a,
    {
        a = a + 1;
    }
    let mut b: usize = n;
    while b > a && is_whitespace(chars[b - 1])
        invariant
            a <= b <= n,
            n == chars@.len(),
            forall|i: int| b <= i < n ==> is_space(#[trigger] chars@[i]),
        decreases b,
    {
        b = b - 1;
    }
    let ghost front = line@.subrange(a as int, n as int);
    let ghost t = line@.subrange(a as int, b as int);
    proof {
        lemma_trim_front(line@, a as int);
        assert(front.subrange(0, b - a) =~= t);
        assert forall|i: int| b - a <= i < front.len() implies is_space(#[trigger] front[i]) by {
            assert(front[i] == chars@[i + a]);
        }
        lemma_trim_back(front, b - a);
        assert(trimmed(line@) == t);
    }
    let mut k: usize = a;
    while k < b && chars[k] != ' '
        invariant
            a <= k <= b,
            b <= n,
            n == chars@.len(),
            forall|i: int| a <= i < k ==> #[trigger] chars@[i] != ' ',
        decreases b - k,
    {
        k = k + 1;
    }
    proof {
        assert forall|i: int| 0 <= i < k - a implies #[trigger] t[i] != ' ' by {
            assert(t[i] == chars@[i + a]);
        }
        lemma_first_blank(t, k - a);
        assert(t.subrange(0, k - a) =~= line@.subrange(a as int, k as int));
    }
    let word = line.substring_char(a, k);
    if k < b {
        proof {
            assert(t.subrange(k - a + 1, t.len() as int) =~= line@.subrange(k + 1, b as int));
        }
        (word, line.substring_char(k + 1, b))
    } else {
        proof {
            reveal_strlit("");
            assert(""@ =~= Seq::<char>::empty());
        }
        (word, "")
    }
}

/// What a line asks for.
#[derive(Clone, Debug, PartialEq, Eq)]
pub enum Command {
    /// `add <text>`: append a task with this text.
    Add(String),
    /// `complete <n>`: mark the task at position `n` (counted from 1) as done.
    Complete(usize),
    /// `remove <n>`: delete the task at position `n` (counted from 1).
    Remove(usize),
    /// `view`: list the tasks.
    List,
    /// Any other command word.
    Unknown,
}

/// What a command is in contracts.
pub enum CommandView {
    Add(Seq<char>),
    Complete(usize),
    Remove(usize),
    List,
    Unknown,
}

impl View for Command {
    type V = CommandView;

    open spec fn view(&self) -> CommandView {
        match self {
            Command::Add(text) => CommandView::Add(text@),
            Command::Complete(position) => CommandView::Complete(*position),
            Command::Remove(position) => CommandView::Remove(*position),
            Command::List => CommandView::List,
            Command::Unknown => CommandView::Unknown,
        }
    }
}

/// What `parse_command` answers for a line.
///
/// `add` takes the whole argument as the task's text. `complete` and `remove`
/// take a position, and fail with `ParseError` where the argument is not one.
/// `view` ignores its argument. Every other word is an unknown command.
pub open spec fn command_of(line: Seq<char>) -> Result<CommandView, TaskError> {
    let word = command_word(line);
    let argument = command_argument(line);
    if word == "add"@ {
        Ok(CommandView::Add(argument))
    } else if word == "complete"@ {
        match position_of(argument) {
            Ok(position) => Ok(CommandView::Complete(position)),
            Err(e) => Err(e),
        }
    } else if word == "view"@ {
        Ok(CommandView::List)
    } else if word == "remove"@ {
        match position_of(argument) {
            Ok(position) => Ok(CommandView::Remove(position)),
            Err(e) => Err(e),
        }
    } else {
        Ok(CommandView::Unknown)
    }
}

/// Reads one line as a command.
pub fn parse_command(line: &str) -> (result: Result<Command, TaskError>)
    ensures
        result is Ok ==> command_of(line@) == Ok::<CommandView, TaskError>(result->Ok_0@),
        result is Err ==> command_of(line@) == Err::<CommandView, TaskError>(result->Err_0),
{
    let (word, argument) = split_line(line);
    if same_text(word, "add") {
        Ok(Command::Add(String::from_str(argument)))
    } else if same_text(word, "complete") {
        match parse_position(argument) {
            Ok(position) => Ok(Command::Complete(position)),
            Err(e) => Err(e),
        }
    } else if same_text(word, "view") {
        Ok(Command::List)
    } else if same_text(word, "remove") {
        match parse_position(argument) {
            Ok(position) => Ok(Command::Remove(position)),
            Err(e) => Err(e),
        }
    } else {
        Ok(Command::Unknown)
    }
}

} // verus!
