//! The greeting of a hello-world engine application.
//!
//! The application registers one callback with the engine, and each run of that
//! callback writes one fixed line to standard output. This library holds what the
//! callback writes: the text of the greeting, and the whole line with its line
//! feed. The application around it owns the engine and the output stream.

use vstd::prelude::*;

verus! {

/// The greeting, character by character: `Hello World!`.
pub open spec fn greeting_text() -> Seq<char> {
    seq!['H', 'e', 'l', 'l', 'o', ' ', 'W', 'o', 'r', 'l', 'd', '!']
}

/// What one run of the callback writes: the greeting, then one line feed.
pub open spec fn greeting_line_text() -> Seq<char> {
    greeting_text().push('\n')
}

/// The text of the greeting, without a line ending.
pub fn greeting() -> (text: &'static str)
    ensures
        text@ == greeting_text(),
{
    proof {
        reveal_strlit("Hello World!");
    }
    "Hello World!"
}

/// The line that one run of the callback writes to standard output: the
/// greeting followed by a single line feed, and nothing else.
pub fn greeting_line() -> (line: String)
    ensures
        line@ == greeting_line_text(),
{
    proof {
        reveal_strlit("\n");
    }
    let mut line = String::from_str(greeting());
    line.append("\n");
    line
}

/// The line holds exactly one line feed, and it is the last character: a
/// reader of the output stream sees one complete line per run of the callback.
pub proof fn lemma_greeting_line_is_one_line()
    ensures
        greeting_line_text().len() == greeting_text().len() + 1,
        greeting_line_text().last() == '\n',
        forall|i: int| 0 <= i < greeting_text().len() ==> greeting_line_text()[i] != '\n',
{
}

} // verus!
