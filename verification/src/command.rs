//! The commands of the console.

use vstd::prelude::*;
use vstd::string::*;
use crate::input::{chars_of, is_word, split_words, words_cover};
use crate::text::str_eq;

verus! {

/// What a line asks the console to do.
#[derive(Debug, Clone, Copy, PartialEq, Eq, Structural)]
pub enum Command {
    /// The line holds no word.
    Empty,
    Quit,
    /// List the creatures of the current directory.
    Ls,
    /// List the creatures of the directory that is named.
    LsDir,
    Ecp,
    TopScp,
    LsMoves,
    Top,
    /// Go to the main directory.
    CdHome,
    /// Go to the directory that is named.
    Cd,
    /// `cd` with more than one name.
    CdTooMany,
    /// Make the directory that is named.
    Mkdir,
    /// `mkdir` without exactly one name.
    MkdirUsage,
    Add,
    Edit,
    Rm,
    Save,
    Sim,
    Sim1,
    Effect,
    /// No command goes by the first word.
    Unknown,
}

/// What a line asks for while a creature is edited.
#[derive(Debug, Clone, Copy, PartialEq, Eq, Structural)]
pub enum EditCommand {
    Quit,
    Cp,
    FastMove,
    ChargeMove1,
    ChargeMove2,
    RemoveChargeMove2,
    /// Anything else: ask again.
    Other,
}

/// The command that goes by the first word `w` where the line holds `n` words.
pub open spec fn command_of(w: Seq<char>, n: int) -> Command {
    if w == "q"@ || w == "quit"@ || w == "exit"@ {
        Command::Quit
    } else if w == "ls"@ {
        if n == 2 {
            Command::LsDir
        } else {
            Command::Ls
        }
    } else if w == "ecp"@ {
        Command::Ecp
    } else if w == "top_scp"@ {
        Command::TopScp
    } else if w == "ls_moves"@ {
        Command::LsMoves
    } else if w == "top"@ {
        Command::Top
    } else if w == "cd"@ {
        if n == 1 {
            Command::CdHome
        } else if n == 2 {
            Command::Cd
        } else {
            Command::CdTooMany
        }
    } else if w == "mkdir"@ {
        if n == 2 {
            Command::Mkdir
        } else {
            Command::MkdirUsage
        }
    } else if w == "a"@ || w == "add"@ {
        Command::Add
    } else if w == "e"@ || w == "edit"@ {
        Command::Edit
    } else if w == "rm"@ {
        Command::Rm
    } else if w == "save"@ {
        Command::Save
    } else if w == "sim"@ {
        Command::Sim
    } else if w == "sim1"@ {
        Command::Sim1
    } else if w == "effect"@ {
        Command::Effect
    } else {
        Command::Unknown
    }
}

/// Whether the command takes the second word of its line as a name.
pub open spec fn takes_name(c: Command) -> bool {
    c == Command::LsDir || c == Command::Cd || c == Command::Mkdir
}

/// The word of `s` from `w.0` to `w.1`.
pub open spec fn word_at(s: Seq<char>, w: (usize, usize)) -> Seq<char> {
    s.subrange(w.0 as int, w.1 as int)
}

/// What a line with the words `words` asks for, and the word that goes
/// with it: the name for a command that takes one, the first word for a
/// command that is not known.
pub open spec fn command_spec(s: Seq<char>, words: Seq<(usize, usize)>) -> (
    Command,
    Option<Seq<char>>,
) {
    if words.len() == 0 {
        (Command::Empty, None)
    } else {
        let c = command_of(word_at(s, words[0]), words.len() as int);
        if takes_name(c) {
            (c, Some(word_at(s, words[1])))
        } else if c == Command::Unknown {
            (c, Some(word_at(s, words[0])))
        } else {
            (c, None)
        }
    }
}

/// The view of an optional string.
pub open spec fn name_view(s: Option<String>) -> Option<Seq<char>> {
    match s {
        Some(x) => Some(x@),
        None => None,
    }
}

/// What a line asks the console to do, by its first word and the number of
/// its words, and the word that goes with the command.
pub fn parse_command(line: &str) -> (r: (Command, Option<String>))
    ensures
        exists|words: Seq<(usize, usize)>|
            #[trigger] words_cover(line@, words, line@.len() as int) && (r.0, name_view(r.1))
                == command_spec(line@, words),
{
    let s = chars_of(line);
    let words = split_words(&s);
    if words.len() == 0 {
        return (Command::Empty, None);
    }
    proof {
        assert(is_word(s@, words@[0].0 as int, words@[0].1 as int));
        if words@.len() > 1 {
            assert(is_word(s@, words@[1].0 as int, words@[1].1 as int));
        }
    }
    let w = line.substring_char(words[0].0, words[0].1);
    let n = words.len();
    let c = if str_eq(w, "q") || str_eq(w, "quit") || str_eq(w, "exit") {
        Command::Quit
    } else if str_eq(w, "ls") {
        if n == 2 {
            Command::LsDir
        } else {
            Command::Ls
        }
    } else if str_eq(w, "ecp") {
        Command::Ecp
    } else if str_eq(w, "top_scp") {
        Command::TopScp
    } else if str_eq(w, "ls_moves") {
        Command::LsMoves
    } else if str_eq(w, "top") {
        Command::Top
    } else if str_eq(w, "cd") {
        if n == 1 {
            Command::CdHome
        } else if n == 2 {
            Command::Cd
        } else {
            Command::CdTooMany
        }
    } else if str_eq(w, "mkdir") {
        if n == 2 {
            Command::Mkdir
        } else {
            Command::MkdirUsage
        }
    } else if str_eq(w, "a") || str_eq(w, "add") {
        Command::Add
    } else if str_eq(w, "e") || str_eq(w, "edit") {
        Command::Edit
    } else if str_eq(w, "rm") {
        Command::Rm
    } else if str_eq(w, "save") {
        Command::Save
    } else if str_eq(w, "sim") {
        Command::Sim
    } else if str_eq(w, "sim1") {
        Command::Sim1
    } else if str_eq(w, "effect") {
        Command::Effect
    } else {
        Command::Unknown
    };
    match c {
        Command::LsDir | Command::Cd | Command::Mkdir => {
            let name = line.substring_char(words[1].0, words[1].1);
            (c, Some(String::from_str(name)))
        },
        Command::Unknown => (c, Some(String::from_str(w))),
        _ => (c, None),
    }
}

/// What the single word `w` asks for while a creature is edited.
pub open spec fn edit_command_of(w: Seq<char>) -> EditCommand {
    if w == "c"@ {
        EditCommand::Cp
    } else if w == "f"@ {
        EditCommand::FastMove
    } else if w == "1"@ {
        EditCommand::ChargeMove1
    } else if w == "2"@ {
        EditCommand::ChargeMove2
    } else if w == "r"@ {
        EditCommand::RemoveChargeMove2
    } else if w == "q"@ {
        EditCommand::Quit
    } else {
        EditCommand::Other
    }
}

/// What a line with the words `words` asks for while a creature is edited:
/// the line has to hold one word.
pub open spec fn edit_command_spec(s: Seq<char>, words: Seq<(usize, usize)>) -> EditCommand {
    if words.len() == 1 {
        edit_command_of(word_at(s, words[0]))
    } else {
        EditCommand::Other
    }
}

/// What a line asks for while a creature is edited.
pub fn parse_edit_command(line: &str) -> (r: EditCommand)
    ensures
        exists|words: Seq<(usize, usize)>|
            #[trigger] words_cover(line@, words, line@.len() as int) && r == edit_command_spec(
                line@,
                words,
            ),
{
    let s = chars_of(line);
    let words = split_words(&s);
    if words.len() != 1 {
        return EditCommand::Other;
    }
    proof {
        assert(is_word(s@, words@[0].0 as int, words@[0].1 as int));
    }
    let w = line.substring_char(words[0].0, words[0].1);
    if str_eq(w, "c") {
        EditCommand::Cp
    } else if str_eq(w, "f") {
        EditCommand::FastMove
    } else if str_eq(w, "1") {
        EditCommand::ChargeMove1
    } else if str_eq(w, "2") {
        EditCommand::ChargeMove2
    } else if str_eq(w, "r") {
        EditCommand::RemoveChargeMove2
    } else if str_eq(w, "q") {
        EditCommand::Quit
    } else {
        EditCommand::Other
    }
}

/// Whether a line with the words `words` says yes: it holds the one word `y`.
pub open spec fn yes_spec(s: Seq<char>, words: Seq<(usize, usize)>) -> bool {
    words.len() == 1 && word_at(s, words[0]) == "y"@
}

/// Whether a line says yes.
pub fn is_yes(line: &str) -> (r: bool)
    ensures
        exists|words: Seq<(usize, usize)>|
            #[trigger] words_cover(line@, words, line@.len() as int) && r == yes_spec(line@, words),
{
    let s = chars_of(line);
    let words = split_words(&s);
    if words.len() != 1 {
        return false;
    }
    proof {
        assert(is_word(s@, words@[0].0 as int, words@[0].1 as int));
    }
    str_eq(line.substring_char(words[0].0, words[0].1), "y")
}

} // verus!
