use timer_cli::command::{
    command_from_words, flag_from_words, parse_command, parse_export_format,
    prompt_line_from_words, read_flag, read_prompt_line, split_words, Command, ExportFormat, Flag,
    PromptLine,
};
use timer_cli::text::{chars_of, join_words};
use timer_cli::{TimerError, TimerErrorKind};

fn invalid<T>() -> Result<T, TimerError> {
    Err(TimerError(TimerErrorKind::Invalid))
}

fn words(items: &[&str]) -> Vec<String> {
    items.iter().map(|s| s.to_string()).collect()
}

#[test]
fn split_words_on_runs_of_white_space() {
    assert_eq!(split_words(""), Vec::<String>::new());
    assert_eq!(split_words("   \t\n"), Vec::<String>::new());
    assert_eq!(split_words("start"), words(&["start"]));
    assert_eq!(split_words("  lap   first\tsecond \r\n"), words(&["lap", "first", "second"]));
    assert_eq!(split_words("a b"), words(&["a", "b"]));
    assert_eq!(split_words("x "), words(&["x"]));
    assert_eq!(split_words(" x"), words(&["x"]));
}

#[test]
fn split_words_knows_unicode_white_space() {
    assert_eq!(split_words("lap\u{a0}caf\u{e9}\u{3000}\u{8d8a}"), words(&["lap", "caf\u{e9}", "\u{8d8a}"]));
    assert_eq!(split_words("a\u{200b}b"), words(&["a\u{200b}b"]));
}

#[test]
fn split_words_agrees_with_split_whitespace() {
    let lines = [
        "",
        " ",
        "measure -- sleep 1",
        "\u{2003}export\u{2028}csv\u{85}",
        "lap  \u{1680} label\u{205f}",
        "\u{feff}start",
    ];
    for line in lines {
        let expected: Vec<String> = line.split_whitespace().map(|s| s.to_string()).collect();
        assert_eq!(split_words(line), expected);
    }
}

#[test]
fn chars_of_keeps_every_character() {
    assert_eq!(chars_of(""), Vec::<char>::new());
    assert_eq!(chars_of("a\u{e9}\u{8d8a}\t"), vec!['a', '\u{e9}', '\u{8d8a}', '\t']);
}

#[test]
fn join_words_puts_one_space_between() {
    assert_eq!(join_words(&[]), "");
    assert_eq!(join_words(&words(&["sleep"])), "sleep");
    assert_eq!(join_words(&words(&["sleep", "1"])), "sleep 1");
    assert_eq!(join_words(&words(&["a", "", "b"])), "a  b");
}

#[test]
fn parse_plain_commands() {
    assert_eq!(parse_command("start"), Ok(Command::Start));
    assert_eq!(parse_command("stop"), Ok(Command::Stop));
    assert_eq!(parse_command("reset"), Ok(Command::Reset));
    assert_eq!(parse_command("elapsed"), Ok(Command::Elapsed));
    assert_eq!(parse_command("watch"), Ok(Command::Watch));
    assert_eq!(parse_command("laps"), Ok(Command::Laps));
}

#[test]
fn flags_are_no_commands() {
    assert_eq!(parse_command("-h"), invalid());
    assert_eq!(parse_command("--help"), invalid());
    assert_eq!(parse_command("-V"), invalid());
    assert_eq!(parse_command("--version"), invalid());
    assert_eq!(parse_command("--"), invalid());
}

#[test]
fn flags_are_read_from_the_first_word() {
    assert_eq!(read_flag("-h"), Some(Flag::Help));
    assert_eq!(read_flag("  --help  "), Some(Flag::Help));
    assert_eq!(read_flag("-V"), Some(Flag::Version));
    assert_eq!(read_flag("--version now"), Some(Flag::Version));
    assert_eq!(read_flag(""), None);
    assert_eq!(read_flag("help"), None);
    assert_eq!(read_flag("-v"), None);
    assert_eq!(read_flag("-H"), None);
    assert_eq!(read_flag("start --help"), None);
    assert_eq!(flag_from_words(&words(&["--help", "x"])), Some(Flag::Help));
    assert_eq!(flag_from_words(&words(&["-V"])), Some(Flag::Version));
    assert_eq!(flag_from_words(&words(&["lap", "-V"])), None);
    assert_eq!(flag_from_words(&[]), None);
}

#[test]
fn commands_from_given_words() {
    assert_eq!(command_from_words(words(&[])), invalid());
    assert_eq!(command_from_words(words(&["start"])), Ok(Command::Start));
    assert_eq!(command_from_words(words(&["stop", "x"])), Ok(Command::Stop));
    assert_eq!(
        command_from_words(words(&["lap", "a b"])),
        Ok(Command::Lap(Some("a b".to_string())))
    );
    assert_eq!(command_from_words(words(&["export", "csv"])), Ok(Command::Export(ExportFormat::Csv)));
    assert_eq!(command_from_words(words(&["export", "pdf"])), invalid());
    assert_eq!(
        command_from_words(words(&["measure", "--", "sleep", "1"])),
        Ok(Command::Measure(words(&["sleep", "1"])))
    );
    assert_eq!(command_from_words(words(&["measure", "--"])), invalid());
    assert_eq!(command_from_words(words(&[" start"])), invalid());
    assert_eq!(command_from_words(words(&["--help"])), invalid());
}

#[test]
fn prompt_lines_from_given_words() {
    assert_eq!(prompt_line_from_words(&words(&["exit"])), PromptLine::Quit);
    assert_eq!(prompt_line_from_words(&words(&["quit"])), PromptLine::Quit);
    assert_eq!(prompt_line_from_words(&words(&["hElP"])), PromptLine::Help);
    assert_eq!(prompt_line_from_words(&words(&["exit", "now"])), PromptLine::Command);
    assert_eq!(prompt_line_from_words(&words(&["start"])), PromptLine::Command);
    assert_eq!(prompt_line_from_words(&[]), PromptLine::Command);
}

#[test]
fn parse_ignores_white_space_around_and_words_not_needed() {
    assert_eq!(parse_command("  start \n"), Ok(Command::Start));
    assert_eq!(parse_command("stop now please"), Ok(Command::Stop));
    assert_eq!(parse_command("\treset\t"), Ok(Command::Reset));
}

#[test]
fn parse_lap_with_and_without_label() {
    assert_eq!(parse_command("lap"), Ok(Command::Lap(None)));
    assert_eq!(parse_command("lap first"), Ok(Command::Lap(Some("first".to_string()))));
    assert_eq!(parse_command("lap first second"), Ok(Command::Lap(Some("first".to_string()))));
    assert_eq!(parse_command("lap   \u{e9}t\u{e9}"), Ok(Command::Lap(Some("\u{e9}t\u{e9}".to_string()))));
}

#[test]
fn parse_export_formats() {
    assert_eq!(parse_command("export"), Ok(Command::Export(ExportFormat::Json)));
    assert_eq!(parse_command("export json"), Ok(Command::Export(ExportFormat::Json)));
    assert_eq!(parse_command("export csv"), Ok(Command::Export(ExportFormat::Csv)));
    assert_eq!(parse_command("export csv extra"), Ok(Command::Export(ExportFormat::Csv)));
    assert_eq!(parse_command("export xml"), invalid());
    assert_eq!(parse_command("export CSV"), invalid());
    assert_eq!(parse_export_format(&[]), Ok(ExportFormat::Json));
    assert_eq!(parse_export_format(&words(&["json"])), Ok(ExportFormat::Json));
    assert_eq!(parse_export_format(&words(&["csv", "x"])), Ok(ExportFormat::Csv));
    assert_eq!(parse_export_format(&words(&["yaml"])), invalid());
}

#[test]
fn parse_measure_takes_the_rest_as_command_line() {
    assert_eq!(parse_command("measure"), invalid());
    assert_eq!(parse_command("measure   "), invalid());
    assert_eq!(parse_command("measure --"), invalid());
    assert_eq!(parse_command("measure  --  "), invalid());
    assert_eq!(parse_command("measure true"), Ok(Command::Measure(words(&["true"]))));
    assert_eq!(
        parse_command("measure -- sleep  1"),
        Ok(Command::Measure(words(&["sleep", "1"])))
    );
    assert_eq!(parse_command("measure sleep 1"), Ok(Command::Measure(words(&["sleep", "1"]))));
    assert_eq!(
        parse_command("measure -- ls -- -l"),
        Ok(Command::Measure(words(&["ls", "--", "-l"])))
    );
    assert_eq!(
        parse_command("measure -- -- x"),
        Ok(Command::Measure(words(&["--", "x"])))
    );
    assert_eq!(
        parse_command("measure ls --"),
        Ok(Command::Measure(words(&["ls", "--"])))
    );
}

#[test]
fn parse_refuses_what_is_not_in_the_vocabulary() {
    assert_eq!(parse_command(""), invalid());
    assert_eq!(parse_command("   "), invalid());
    assert_eq!(parse_command("begin"), invalid());
    assert_eq!(parse_command("Start"), invalid());
    assert_eq!(parse_command("starts"), invalid());
    assert_eq!(parse_command("help"), invalid());
    assert_eq!(parse_command("exit"), invalid());
    assert_eq!(parse_command("-v"), invalid());
    assert_eq!(parse_command("x start"), invalid());
}

#[test]
fn prompt_answers_exit_quit_and_help_itself() {
    assert_eq!(read_prompt_line("exit"), PromptLine::Quit);
    assert_eq!(read_prompt_line("quit\n"), PromptLine::Quit);
    assert_eq!(read_prompt_line("  quit  "), PromptLine::Quit);
    assert_eq!(read_prompt_line("help"), PromptLine::Help);
    assert_eq!(read_prompt_line("HELP\r\n"), PromptLine::Help);
    assert_eq!(read_prompt_line(" HeLp"), PromptLine::Help);
}

#[test]
fn prompt_hands_everything_else_on() {
    assert_eq!(read_prompt_line(""), PromptLine::Command);
    assert_eq!(read_prompt_line("start"), PromptLine::Command);
    assert_eq!(read_prompt_line("Exit"), PromptLine::Command);
    assert_eq!(read_prompt_line("QUIT"), PromptLine::Command);
    assert_eq!(read_prompt_line("exit now"), PromptLine::Command);
    assert_eq!(read_prompt_line("help me"), PromptLine::Command);
    assert_eq!(read_prompt_line("helps"), PromptLine::Command);
    assert_eq!(read_prompt_line("hel"), PromptLine::Command);
    assert_eq!(read_prompt_line("--help"), PromptLine::Command);
}
