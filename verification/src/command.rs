//! The command vocabulary of the front end: one line of input, split into
//! words, names one command.

use crate::error::TimerError;
use crate::error::TimerErrorKind;
use crate::text::chars_of;
use crate::text::string_views;
use vstd::prelude::*;
use vstd::string::StrSliceExecFns;
use vstd::string::StringExecFns;

verus! {

/// Whether a character is white space, as `char::is_whitespace` has it: the
/// Unicode property `White_Space`.
pub uninterp spec fn is_whitespace(c: char) -> bool;

/// `char::is_whitespace`.
#[verifier::external_body]
pub(crate) fn char_is_whitespace(c: char) -> (b: bool)
    ensures
        b == is_whitespace(c),
{
    c.is_whitespace()
}

/// A pending word as the list of words it makes: none while it is empty.
pub open spec fn closed_word(word: Seq<char>) -> Seq<Seq<char>> {
    if word.len() > 0 {
        seq![word]
    } else {
        Seq::empty()
    }
}

/// The words of `text` when those of `word` were read just before it and
/// no white space since.
pub open spec fn words_from(text: Seq<char>, word: Seq<char>) -> Seq<Seq<char>>
    decreases text.len(),
{
    if text.len() == 0 {
        closed_word(word)
    } else if is_whitespace(text[0]) {
        closed_word(word) + words_from(text.drop_first(), Seq::empty())
    } else {
        words_from(text.drop_first(), word.push(text[0]))
    }
}

/// The words of a line: its longest runs of characters that are not white
/// space, in order.
pub open spec fn words_of(text: Seq<char>) -> Seq<Seq<char>> {
    words_from(text, Seq::empty())
}

/// Splits a line into its words.
pub fn split_words(text: &str) -> (words: Vec<String>)
    ensures
        string_views(words@) == words_of(text@),
{
    let chars = chars_of(text);
    let mut words: Vec<String> = Vec::new();
    let mut start: usize = 0;
    let mut i: usize = 0;
    assert(text@.skip(0) =~= text@);
    assert(text@.subrange(0, 0) =~= Seq::<char>::empty());
    assert(string_views(words@) =~= Seq::<Seq<char>>::empty());
    while i < chars.len()
        invariant
            chars@ == text@,
            start <= i <= chars.len(),
            words_of(text@) == string_views(words@) + words_from(
                text@.skip(i as int),
                text@.subrange(start as int, i as int),
            ),
        decreases chars.len() - i,
    {
        let ghost rest = text@.skip(i as int);
        let ghost pending = text@.subrange(start as int, i as int);
        let ghost before = string_views(words@);
        assert(rest.drop_first() =~= text@.skip(i + 1));
        assert(rest[0] == text@[i as int]);
        if char_is_whitespace(chars[i]) {
            if start < i {
                let word = String::from_str(text.substring_char(start, i));
                words.push(word);
                assert(string_views(words@) =~= before + closed_word(pending));
            }
            start = i + 1;
            assert(text@.subrange(start as int, i + 1) =~= Seq::<char>::empty());
            assert(string_views(words@) + words_from(text@.skip(i + 1), Seq::empty()) =~= before
                + (closed_word(pending) + words_from(rest.drop_first(), Seq::empty())));
        } else {
            assert(text@.subrange(start as int, i + 1) =~= pending.push(rest[0]));
        }
        i = i + 1;
    }
    let ghost before = string_views(words@);
    let ghost pending = text@.subrange(start as int, i as int);
    assert(text@.skip(i as int).len() == 0);
    if start < i {
        let word = String::from_str(text.substring_char(start, i));
        words.push(word);
        assert(string_views(words@) =~= before + closed_word(pending));
    }
    assert(string_views(words@) =~= before + closed_word(pending));
    words
}

/// The formats that laps can be exported in.
#[derive(Debug, Clone, Copy, PartialEq, Eq, Structural)]
pub enum ExportFormat {
    Json,
    Csv,
}

/// One command of the vocabulary, with its arguments.
#[derive(Debug, Clone, PartialEq, Eq)]
pub enum Command {
    Start,
    Stop,
    Reset,
    Elapsed,
    Watch,
    /// `lap [label]`
    Lap(Option<String>),
    Laps,
    /// `export [json|csv]`, JSON where no format is named.
    Export(ExportFormat),
    /// `measure -- <program> [arguments…]`: the program and its
    /// arguments, without the separator.
    Measure(Vec<String>),
}

/// A command as a mathematical value.
pub enum CommandView {
    Start,
    Stop,
    Reset,
    Elapsed,
    Watch,
    Lap(Option<Seq<char>>),
    Laps,
    Export(ExportFormat),
    Measure(Seq<Seq<char>>),
}

impl View for Command {
    type V = CommandView;

    open spec fn view(&self) -> CommandView {
        match *self {
            Command::Start => CommandView::Start,
            Command::Stop => CommandView::Stop,
            Command::Reset => CommandView::Reset,
            Command::Elapsed => CommandView::Elapsed,
            Command::Watch => CommandView::Watch,
            Command::Lap(label) => CommandView::Lap(
                match label {
                    Some(text) => Some(text@),
                    None => None,
                },
            ),
            Command::Laps => CommandView::Laps,
            Command::Export(format) => CommandView::Export(format),
            Command::Measure(words) => CommandView::Measure(string_views(words@)),
        }
    }
}

/// The export format that the words after `export` name, if they name one.
/// No word means JSON; words after the first are not read.
pub open spec fn export_format_of(args: Seq<Seq<char>>) -> Option<ExportFormat> {
    if args.len() == 0 || args[0] == "json"@ {
        Some(ExportFormat::Json)
    } else if args[0] == "csv"@ {
        Some(ExportFormat::Csv)
    } else {
        None
    }
}

/// The command line of a program to measure, from the words after
/// `measure`: a `--` in front separates it from the command and is no part
/// of it.
pub open spec fn program_words(args: Seq<Seq<char>>) -> Seq<Seq<char>> {
    if args.len() > 0 && args[0] == "--"@ {
        args.skip(1)
    } else {
        args
    }
}

/// The command that a line of words names, if it names one. The first word
/// decides, and it must be one of the nine of the vocabulary; words that a
/// command has no use for are not read.
pub open spec fn command_of(words: Seq<Seq<char>>) -> Option<CommandView> {
    if words.len() == 0 {
        None
    } else if words[0] == "start"@ {
        Some(CommandView::Start)
    } else if words[0] == "stop"@ {
        Some(CommandView::Stop)
    } else if words[0] == "reset"@ {
        Some(CommandView::Reset)
    } else if words[0] == "elapsed"@ {
        Some(CommandView::Elapsed)
    } else if words[0] == "watch"@ {
        Some(CommandView::Watch)
    } else if words[0] == "lap"@ {
        Some(CommandView::Lap(if words.len() > 1 {
            Some(words[1])
        } else {
            None
        }))
    } else if words[0] == "laps"@ {
        Some(CommandView::Laps)
    } else if words[0] == "export"@ {
        match export_format_of(words.skip(1)) {
            Some(format) => Some(CommandView::Export(format)),
            None => None,
        }
    } else if words[0] == "measure"@ {
        if program_words(words.skip(1)).len() > 0 {
            Some(CommandView::Measure(program_words(words.skip(1))))
        } else {
            None
        }
    } else {
        None
    }
}

/// Whether a word is spelled as `name`.
fn is_word(word: &String, name: &str) -> (b: bool)
    ensures
        b == (word@ == name@),
{
    let spelled = String::from_str(name);
    *word == spelled
}

/// Reads the format argument of `export` from the words after it.
/// Refused with `Invalid` where the first of them names no format.
pub fn parse_export_format(args: &[String]) -> (r: Result<ExportFormat, TimerError>)
    ensures
        r == match export_format_of(string_views(args@)) {
            Some(format) => Ok::<ExportFormat, TimerError>(format),
            None => Err::<ExportFormat, TimerError>(TimerError(TimerErrorKind::Invalid)),
        },
{
    if args.len() == 0 {
        Ok(ExportFormat::Json)
    } else if is_word(&args[0], "json") {
        Ok(ExportFormat::Json)
    } else if is_word(&args[0], "csv") {
        Ok(ExportFormat::Csv)
    } else {
        Err(TimerError(TimerErrorKind::Invalid))
    }
}

/// The command that a line with these words names. Refused with `Invalid`
/// where they name no command of the vocabulary: no word at all, an
/// unknown first word, an unknown export format, `measure` without a
/// program.
pub fn command_from_words(words: Vec<String>) -> (r: Result<Command, TimerError>)
    ensures
        match command_of(string_views(words@)) {
            Some(command) => r matches Ok(parsed) && parsed@ == command,
            None => r == Err::<Command, TimerError>(TimerError(TimerErrorKind::Invalid)),
        },
{
    let mut words = words;
    let ghost all = string_views(words@);
    if words.len() == 0 {
        return Err(TimerError(TimerErrorKind::Invalid));
    }
    assert(all[0] == words@[0]@);
    if is_word(&words[0], "start") {
        Ok(Command::Start)
    } else if is_word(&words[0], "stop") {
        Ok(Command::Stop)
    } else if is_word(&words[0], "reset") {
        Ok(Command::Reset)
    } else if is_word(&words[0], "elapsed") {
        Ok(Command::Elapsed)
    } else if is_word(&words[0], "watch") {
        Ok(Command::Watch)
    } else if is_word(&words[0], "lap") {
        if words.len() > 1 {
            assert(all[1] == words@[1]@);
            Ok(Command::Lap(Some(words[1].clone())))
        } else {
            Ok(Command::Lap(None))
        }
    } else if is_word(&words[0], "laps") {
        Ok(Command::Laps)
    } else if is_word(&words[0], "export") {
        words.remove(0);
        assert(string_views(words@) =~= all.skip(1));
        match parse_export_format(words.as_slice()) {
            Ok(format) => Ok(Command::Export(format)),
            Err(e) => Err(e),
        }
    } else if is_word(&words[0], "measure") {
        words.remove(0);
        assert(string_views(words@) =~= all.skip(1));
        if words.len() > 0 {
            assert(all.skip(1)[0] == words@[0]@);
            if is_word(&words[0], "--") {
                words.remove(0);
                assert(string_views(words@) =~= all.skip(1).skip(1));
            }
        }
        if words.len() > 0 {
            Ok(Command::Measure(words))
        } else {
            Err(TimerError(TimerErrorKind::Invalid))
        }
    } else {
        Err(TimerError(TimerErrorKind::Invalid))
    }
}

/// Reads one command from a line of input. Refused with `Invalid` where
/// the words of the line name no command of the vocabulary.
pub fn parse_command(input: &str) -> (r: Result<Command, TimerError>)
    ensures
        match command_of(words_of(input@)) {
            Some(command) => r matches Ok(parsed) && parsed@ == command,
            None => r == Err::<Command, TimerError>(TimerError(TimerErrorKind::Invalid)),
        },
{
    command_from_words(split_words(input))
}

/// A flag of the program. Flags are no commands: the front end answers
/// them itself, before it reads a command from a line.
#[derive(Debug, Clone, Copy, PartialEq, Eq, Structural)]
pub enum Flag {
    /// `-h` or `--help`: show the help text.
    Help,
    /// `-V` or `--version`: show the version.
    Version,
}

/// The flag that a line of words holds in first place, if it holds one.
pub open spec fn flag_of(words: Seq<Seq<char>>) -> Option<Flag> {
    if words.len() == 0 {
        None
    } else if words[0] == "-h"@ || words[0] == "--help"@ {
        Some(Flag::Help)
    } else if words[0] == "-V"@ || words[0] == "--version"@ {
        Some(Flag::Version)
    } else {
        None
    }
}

/// The flag that a line with these words holds in first place.
pub fn flag_from_words(words: &[String]) -> (flag: Option<Flag>)
    ensures
        flag == flag_of(string_views(words@)),
{
    if words.len() == 0 {
        return None;
    }
    assert(string_views(words@)[0] == words@[0]@);
    if is_word(&words[0], "-h") || is_word(&words[0], "--help") {
        Some(Flag::Help)
    } else if is_word(&words[0], "-V") || is_word(&words[0], "--version") {
        Some(Flag::Version)
    } else {
        None
    }
}

/// Reads the flag that a line of input holds in first place, if any.
pub fn read_flag(line: &str) -> (flag: Option<Flag>)
    ensures
        flag == flag_of(words_of(line@)),
{
    let words = split_words(line);
    flag_from_words(words.as_slice())
}

/// What the interactive prompt makes of a line before any command is read
/// from it.
#[derive(Debug, Clone, Copy, PartialEq, Eq, Structural)]
pub enum PromptLine {
    /// `exit` or `quit`: leave the prompt.
    Quit,
    /// `help`, in any mix of upper and lower case: show the help text.
    Help,
    /// Anything else is handed on as a command.
    Command,
}

/// Whether a word is `help`, letter case aside.
pub open spec fn is_help_word(word: Seq<char>) -> bool {
    &&& word.len() == 4
    &&& (word[0] == 'h' || word[0] == 'H')
    &&& (word[1] == 'e' || word[1] == 'E')
    &&& (word[2] == 'l' || word[2] == 'L')
    &&& (word[3] == 'p' || word[3] == 'P')
}

/// What the prompt makes of a line with these words.
pub open spec fn prompt_line_of(words: Seq<Seq<char>>) -> PromptLine {
    if words.len() == 1 && (words[0] == "exit"@ || words[0] == "quit"@) {
        PromptLine::Quit
    } else if words.len() == 1 && is_help_word(words[0]) {
        PromptLine::Help
    } else {
        PromptLine::Command
    }
}

/// What the prompt makes of a line with these words.
pub fn prompt_line_from_words(words: &[String]) -> (kind: PromptLine)
    ensures
        kind == prompt_line_of(string_views(words@)),
{
    if words.len() != 1 {
        return PromptLine::Command;
    }
    assert(string_views(words@)[0] == words@[0]@);
    if is_word(&words[0], "exit") || is_word(&words[0], "quit") {
        return PromptLine::Quit;
    }
    let letters = chars_of(words[0].as_str());
    if letters.len() == 4 && (letters[0] == 'h' || letters[0] == 'H') && (letters[1] == 'e'
        || letters[1] == 'E') && (letters[2] == 'l' || letters[2] == 'L') && (letters[3] == 'p'
        || letters[3] == 'P') {
        PromptLine::Help
    } else {
        PromptLine::Command
    }
}

/// Tells the lines that the prompt answers itself from those that hold a
/// command. White space around the line does not count.
pub fn read_prompt_line(line: &str) -> (kind: PromptLine)
    ensures
        kind == prompt_line_of(words_of(line@)),
{
    let words = split_words(line);
    prompt_line_from_words(words.as_slice())
}

} // verus!
