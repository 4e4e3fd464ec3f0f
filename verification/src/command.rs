//! Commands as the user types them: a verb and its arguments.

use crate::text::{
    is_whitespace, lemma_split_blank, split_whitespace, split_words, str_eq, strings_view,
};
use vstd::prelude::*;

verus! {

/// The verbs.
#[derive(Clone, Copy, Debug, PartialEq, Eq, Structural)]
pub enum CommandType {
    Play,
    Pause,
    Stop,
    List,
    Whoami,
    Help,
    Quit,
    Unknown,
}

/// One line of input, parsed: the verb and the words after it.
#[derive(Clone, Debug, PartialEq, Eq)]
pub struct Command {
    pub command_type: CommandType,
    pub args: Vec<String>,
}

/// Marks a command that ran.
#[derive(Debug)]
pub struct CommandOk {}

/// Marks a command that failed.
#[derive(Debug)]
pub struct CommandError {}

/// The verb that `word` names. Any word that is no verb is `Unknown`.
pub open spec fn command_type_of(word: Seq<char>) -> CommandType {
    if word == "play"@ {
        CommandType::Play
    } else if word == "pause"@ {
        CommandType::Pause
    } else if word == "stop"@ {
        CommandType::Stop
    } else if word == "ls"@ || word == "list"@ {
        CommandType::List
    } else if word == "whoami"@ {
        CommandType::Whoami
    } else if word == "help"@ || word == "man"@ {
        CommandType::Help
    } else if word == "quit"@ {
        CommandType::Quit
    } else {
        CommandType::Unknown
    }
}

/// The verb of a line with these words: that of the first word, and
/// `Unknown` for a line without words.
pub open spec fn parsed_type(words: Seq<Seq<char>>) -> CommandType {
    if words.len() == 0 {
        CommandType::Unknown
    } else {
        command_type_of(words[0])
    }
}

/// The arguments of a line with these words: all words but the first.
pub open spec fn parsed_args(words: Seq<Seq<char>>) -> Seq<Seq<char>> {
    if words.len() == 0 {
        words
    } else {
        words.drop_first()
    }
}

/// A line without words, be it empty or of white space only, is an `Unknown`
/// command without arguments.
pub proof fn lemma_blank_line_is_unknown(input: Seq<char>)
    requires
        forall|i: int| 0 <= i < input.len() ==> is_whitespace(input[i]),
    ensures
        parsed_type(split_whitespace(input)) == CommandType::Unknown,
        parsed_args(split_whitespace(input)).len() == 0,
{
    lemma_split_blank(input);
}

impl CommandType {
    /// The verb that `s` names. This never fails: a word that is no verb
    /// gives `Unknown`.
    pub fn from_str(s: &str) -> (r: Result<CommandType, String>)
        ensures
            r == Ok::<CommandType, String>(command_type_of(s@)),
    {
        if str_eq(s, "play") {
            Ok(CommandType::Play)
        } else if str_eq(s, "pause") {
            Ok(CommandType::Pause)
        } else if str_eq(s, "stop") {
            Ok(CommandType::Stop)
        } else if str_eq(s, "ls") || str_eq(s, "list") {
            Ok(CommandType::List)
        } else if str_eq(s, "whoami") {
            Ok(CommandType::Whoami)
        } else if str_eq(s, "help") || str_eq(s, "man") {
            Ok(CommandType::Help)
        } else if str_eq(s, "quit") {
            Ok(CommandType::Quit)
        } else {
            Ok(CommandType::Unknown)
        }
    }
}

impl std::str::FromStr for CommandType {
    type Err = String;

    /// The verb that `s` names, as `CommandType::from_str` gives it. This
    /// never fails: a word that is no verb gives `Unknown`.
    fn from_str(s: &str) -> (r: Result<CommandType, String>)
        ensures
            r == Ok::<CommandType, String>(command_type_of(s@)),
    {
        CommandType::from_str(s)
    }
}

impl Command {
    /// Parses one line of input. The line is split at white space; the first
    /// word is the verb and the others are the arguments. Every line parses:
    /// an empty line, or one of white space only, is an `Unknown` command
    /// without arguments.
    pub fn new(input: String) -> (c: Command)
        ensures
            c.command_type == parsed_type(split_whitespace(input@)),
            strings_view(c.args@) == parsed_args(split_whitespace(input@)),
    {
        let mut words = split_words(input.as_str());
        if words.len() == 0 {
            return Command { command_type: CommandType::Unknown, args: words };
        }
        let ghost all = strings_view(words@);
        let verb = words.remove(0);
        assert(strings_view(words@) == all.drop_first());
        let command_type = match CommandType::from_str(verb.as_str()) {
            Ok(t) => t,
            Err(_) => CommandType::Unknown,
        };
        Command { command_type, args: words }
    }
}

} // verus!
