//! The fixed texts that the client shows.

use crate::command::{command_type_of, CommandType};
use crate::text::{contains, occurs_at, strings_view};
use vstd::prelude::*;

verus! {

/// The answer to a command that is not understood.
pub open spec fn unknown_text() -> Seq<char> {
    "Huh?"@
}

/// The answer where no collection matches.
pub open spec fn not_found_text() -> Seq<char> {
    "Not found"@
}

/// The farewell.
pub open spec fn farewell_text() -> Seq<char> {
    "Come back soon!"@
}

/// The usage summary, line by line: a heading, then every verb with what it
/// does.
pub open spec fn help_lines() -> Seq<Seq<char>> {
    seq![
        "Available Commands:"@,
        "play playlist/album         Select and play a playlist/album"@,
        "play playlist/album <name>  Play a playlist/album with name <name>"@,
        "pause                       Pause the music (has no effect yet)"@,
        "stop                        Stop the music"@,
        "ls/list playlist/album      Print list of available playlists/albums"@,
        "whoami                      Print your username"@,
        "help/man                    Print list of available commands"@,
        "quit                        Exit program"@,
    ]
}

/// Whether a line of the usage summary holds `word`.
pub open spec fn help_names(word: Seq<char>) -> bool {
    exists|i: int| 0 <= i < help_lines().len() && contains(#[trigger] help_lines()[i], word)
}

/// Line `line` of the usage summary holds `word` at position `at`.
proof fn lemma_help_line_names(line: int, word: Seq<char>, at: int)
    requires
        0 <= line < help_lines().len(),
        occurs_at(help_lines()[line], word, at),
    ensures
        help_names(word),
{
    assert(contains(help_lines()[line], word));
}

/// The usage summary names every verb: each word that the parser takes for a
/// verb stands in one of its lines.
pub proof fn lemma_help_names_every_verb(word: Seq<char>)
    requires
        command_type_of(word) != CommandType::Unknown,
    ensures
        help_names(word),
{
    let lines = help_lines();
    if word == "play"@ {
        reveal_strlit("play");
        reveal_strlit("play playlist/album         Select and play a playlist/album");
        assert(lines[1].subrange(0, 4) =~= word);
        lemma_help_line_names(1, word, 0);
    } else if word == "pause"@ {
        reveal_strlit("pause");
        reveal_strlit("pause                       Pause the music (has no effect yet)");
        assert(lines[3].subrange(0, 5) =~= word);
        lemma_help_line_names(3, word, 0);
    } else if word == "stop"@ {
        reveal_strlit("stop");
        reveal_strlit("stop                        Stop the music");
        assert(lines[4].subrange(0, 4) =~= word);
        lemma_help_line_names(4, word, 0);
    } else if word == "ls"@ {
        reveal_strlit("ls");
        reveal_strlit("ls/list playlist/album      Print list of available playlists/albums");
        assert(lines[5].subrange(0, 2) =~= word);
        lemma_help_line_names(5, word, 0);
    } else if word == "list"@ {
        reveal_strlit("list");
        reveal_strlit("ls/list playlist/album      Print list of available playlists/albums");
        assert(lines[5].subrange(3, 7) =~= word);
        lemma_help_line_names(5, word, 3);
    } else if word == "whoami"@ {
        reveal_strlit("whoami");
        reveal_strlit("whoami                      Print your username");
        assert(lines[6].subrange(0, 6) =~= word);
        lemma_help_line_names(6, word, 0);
    } else if word == "help"@ {
        reveal_strlit("help");
        reveal_strlit("help/man                    Print list of available commands");
        assert(lines[7].subrange(0, 4) =~= word);
        lemma_help_line_names(7, word, 0);
    } else if word == "man"@ {
        reveal_strlit("man");
        reveal_strlit("help/man                    Print list of available commands");
        assert(lines[7].subrange(5, 8) =~= word);
        lemma_help_line_names(7, word, 5);
    } else {
        reveal_strlit("quit");
        reveal_strlit("quit                        Exit program");
        assert(lines[8].subrange(0, 4) =~= word);
        lemma_help_line_names(8, word, 0);
    }
}

/// The lines of the usage summary, for the caller to print. They are the
/// same at every call and name every verb.
pub fn print_help() -> (lines: Vec<String>)
    ensures
        strings_view(lines@) == help_lines(),
{
    let mut lines: Vec<String> = Vec::new();
    lines.push("Available Commands:".to_owned());
    lines.push("play playlist/album         Select and play a playlist/album".to_owned());
    lines.push("play playlist/album <name>  Play a playlist/album with name <name>".to_owned());
    lines.push("pause                       Pause the music (has no effect yet)".to_owned());
    lines.push("stop                        Stop the music".to_owned());
    lines.push("ls/list playlist/album      Print list of available playlists/albums".to_owned());
    lines.push("whoami                      Print your username".to_owned());
    lines.push("help/man                    Print list of available commands".to_owned());
    lines.push("quit                        Exit program".to_owned());
    assert(strings_view(lines@) =~= help_lines());
    lines
}

} // verus!
