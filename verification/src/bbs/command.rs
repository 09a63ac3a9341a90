//! The commands that a user of the bulletin board can send.

use vstd::prelude::*;
use vstd::string::StrSliceExecFns;
use vstd::string::StringExecFns;

use crate::text::chars_of;
use crate::text::join_by;
use crate::text::joined_by;
use crate::text::texts;

verus! {

/// Whether a character separates words: the characters that Unicode lists as
/// white space.
pub open spec fn is_space(c: char) -> bool {
    let u = c as u32;
    ||| 0x09 <= u <= 0x0d
    ||| u == 0x20
    ||| u == 0x85
    ||| u == 0xa0
    ||| u == 0x1680
    ||| 0x2000 <= u <= 0x200a
    ||| u == 0x2028
    ||| u == 0x2029
    ||| u == 0x202f
    ||| u == 0x205f
    ||| u == 0x3000
}

/// Where the word that begins at `from` ends: at the next separator, or at
/// the end of the text.
pub open spec fn word_end(s: Seq<char>, from: int) -> int
    decreases s.len() - from,
{
    if from < 0 || from >= s.len() {
        from
    } else if is_space(s[from]) {
        from
    } else {
        word_end(s, from + 1)
    }
}

/// The end of a word lies within the text, after the start of the word.
pub proof fn lemma_word_end(s: Seq<char>, from: int)
    requires
        0 <= from <= s.len(),
    ensures
        from <= word_end(s, from) <= s.len(),
        from < s.len() && !is_space(s[from]) ==> from < word_end(s, from),
        word_end(s, from) < s.len() ==> is_space(s[word_end(s, from)]),
        forall|i: int| from <= i < word_end(s, from) ==> !is_space(#[trigger] s[i]),
    decreases s.len() - from,
{
    if from < s.len() && !is_space(s[from]) {
        lemma_word_end(s, from + 1);
    }
}

/// The words of a text from the position `from` on: its maximal runs of
/// characters that are no separators, in order.
pub open spec fn words_from(s: Seq<char>, from: int) -> Seq<Seq<char>>
    decreases s.len() - from,
{
    if from < 0 || from >= s.len() {
        Seq::empty()
    } else if is_space(s[from]) {
        words_from(s, from + 1)
    } else {
        proof {
            lemma_word_end(s, from);
        }
        seq![s.subrange(from, word_end(s, from))] + words_from(s, word_end(s, from))
    }
}

/// The words of a text.
pub open spec fn words(s: Seq<char>) -> Seq<Seq<char>> {
    words_from(s, 0)
}

/// Words written one after the other with a single space between them.
pub open spec fn joined(words: Seq<Seq<char>>) -> Seq<char> {
    joined_by(words, seq![' '])
}

/// A request to the bulletin board.
#[derive(Debug)]
pub enum Command {
    Help,
    Channels,
    Join { ch: String },
    Post { msg: String },
    List,
}

/// Mathematical value of a [`Command`].
pub enum CommandView {
    Help,
    Channels,
    Join { ch: Seq<char> },
    Post { msg: Seq<char> },
    List,
}

impl View for Command {
    type V = CommandView;

    open spec fn view(&self) -> CommandView {
        match self {
            Command::Help => CommandView::Help,
            Command::Channels => CommandView::Channels,
            Command::Join { ch } => CommandView::Join { ch: ch@ },
            Command::Post { msg } => CommandView::Post { msg: msg@ },
            Command::List => CommandView::List,
        }
    }
}

/// Why a text is no command.
#[derive(Clone, Copy, Debug, PartialEq, Eq, Structural)]
pub enum CommandError {
    /// A request to join names no channel.
    MissingChannelName,
    /// The text does not begin with the name of a command.
    InvalidCommand,
}

impl CommandError {
    /// The error in words.
    pub fn message(&self) -> (text: &'static str)
        ensures
            text@ == match *self {
                CommandError::MissingChannelName => "Missing channel name"@,
                CommandError::InvalidCommand => "Invalid command"@,
            },
    {
        match self {
            CommandError::MissingChannelName => "Missing channel name",
            CommandError::InvalidCommand => "Invalid command",
        }
    }
}

/// The command that a text spells. Its first word names the command, in
/// full or by its first letter. `join` takes the next word as the name of
/// the channel and ignores the rest; `post` takes all the words that follow,
/// with single spaces between them.
pub open spec fn parsed(command: Seq<char>) -> Result<CommandView, CommandError> {
    let w = words(command);
    if w.len() == 0 {
        Err(CommandError::InvalidCommand)
    } else if w[0] == "h"@ || w[0] == "help"@ {
        Ok(CommandView::Help)
    } else if w[0] == "c"@ || w[0] == "channels"@ {
        Ok(CommandView::Channels)
    } else if w[0] == "j"@ || w[0] == "join"@ {
        if w.len() < 2 {
            Err(CommandError::MissingChannelName)
        } else {
            Ok(CommandView::Join { ch: w[1] })
        }
    } else if w[0] == "p"@ || w[0] == "post"@ {
        Ok(CommandView::Post { msg: joined(w.skip(1)) })
    } else if w[0] == "l"@ || w[0] == "list"@ {
        Ok(CommandView::List)
    } else {
        Err(CommandError::InvalidCommand)
    }
}

/// Tells whether a character separates words.
pub fn is_whitespace(c: char) -> (space: bool)
    ensures
        space == is_space(c),
{
    let u = c as u32;
    (0x09 <= u && u <= 0x0d) || u == 0x20 || u == 0x85 || u == 0xa0 || u == 0x1680 || (0x2000 <= u
        && u <= 0x200a) || u == 0x2028 || u == 0x2029 || u == 0x202f || u == 0x205f || u == 0x3000
}

/// Splits a text into its words.
pub fn split_words(s: &str) -> (list: Vec<String>)
    ensures
        texts(list@) == words(s@),
{
    let chars = chars_of(s);
    let n = chars.len();
    let mut list: Vec<String> = Vec::new();
    let mut i: usize = 0;
    assert(texts(list@) =~= Seq::empty());
    while i < n
        invariant
            chars@ == s@,
            n == chars.len(),
            i <= n,
            words(s@) == texts(list@) + words_from(s@, i as int),
        decreases n - i,
    {
        if is_whitespace(chars[i]) {
            i = i + 1;
        } else {
            let start = i;
            proof {
                lemma_word_end(s@, start as int);
            }
            while i < n && !is_whitespace(chars[i])
                invariant
                    chars@ == s@,
                    n == chars.len(),
                    start <= i <= n,
                    word_end(s@, start as int) == word_end(s@, i as int),
                decreases n - i,
            {
                i = i + 1;
            }
            assert(i == word_end(s@, start as int));
            let word = s.substring_char(start, i);
            let ghost before = texts(list@);
            list.push(String::from_str(word));
            assert(texts(list@) =~= before + seq![s@.subrange(start as int, i as int)]);
        }
    }
    list
}

fn text_is(word: &String, name: &str) -> (same: bool)
    ensures
        same == (word@ == name@),
{
    let name = String::from_str(name);
    *word == name
}

impl Command {
    /// Reads a command from a text.
    pub fn parse(command: &str) -> (result: Result<Command, CommandError>)
        ensures
            match result {
                Ok(parsed_command) => parsed(command@) == Ok::<CommandView, CommandError>(
                    parsed_command@,
                ),
                Err(error) => parsed(command@) == Err::<CommandView, CommandError>(error),
            },
    {
        let list = split_words(command);
        assert(forall|i: int| 0 <= i < list.len() ==> texts(list@)[i] == list@[i]@);
        if list.len() == 0 {
            return Err(CommandError::InvalidCommand);
        }
        let first = &list[0];
        if text_is(first, "h") || text_is(first, "help") {
            Ok(Command::Help)
        } else if text_is(first, "c") || text_is(first, "channels") {
            Ok(Command::Channels)
        } else if text_is(first, "j") || text_is(first, "join") {
            if list.len() < 2 {
                Err(CommandError::MissingChannelName)
            } else {
                Ok(Command::Join { ch: list[1].clone() })
            }
        } else if text_is(first, "p") || text_is(first, "post") {
            proof {
                reveal_strlit(" ");
                assert(" "@ =~= seq![' ']);
            }
            Ok(Command::Post { msg: join_by(&list, 1, " ") })
        } else if text_is(first, "l") || text_is(first, "list") {
            Ok(Command::List)
        } else {
            Err(CommandError::InvalidCommand)
        }
    }
}

} // verus!
