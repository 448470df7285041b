//! What a word server sends to its clients.
use vstd::prelude::*;

verus! {

/// The line that carries `word` to a client: the word, a space and a newline.
pub open spec fn wire_line_spec(word: Seq<char>) -> Seq<char> {
    word + seq![' ', '\n']
}

/// The line carries the whole word: it is two characters longer than the
/// word, starts with the word, and ends with a space and a newline.
pub proof fn wire_line_carries_word(word: Seq<char>)
    ensures
        wire_line_spec(word).len() == word.len() + 2,
        wire_line_spec(word).take(word.len() as int) == word,
        wire_line_spec(word)[word.len() as int] == ' ',
        wire_line_spec(word)[word.len() as int + 1] == '\n',
{
    assert(wire_line_spec(word).take(word.len() as int) =~= word);
}

/// The line that carries `word` to a client, as `format!("{} \n", word)`.
pub fn wire_line(word: &str) -> (line: String)
    ensures
        line@ == wire_line_spec(word@),
        line@.len() == word@.len() + 2,
        line@.take(word@.len() as int) == word@,
        line@[word@.len() as int] == ' ',
        line@[word@.len() as int + 1] == '\n',
{
    proof {
        wire_line_carries_word(word@);
    }
    let mut line = word.to_owned();
    proof {
        reveal_strlit(" \n");
    }
    line.append(" \n");
    line
}

} // verus!
