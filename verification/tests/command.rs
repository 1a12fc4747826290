use task_tracker::command::{is_whitespace, parse_command, split_line, Command};
use task_tracker::task::TaskError;

#[test]
fn is_whitespace_agrees_with_the_standard_library() {
    for code in 0..=0x10FFFFu32 {
        if let Some(c) = char::from_u32(code) {
            assert_eq!(is_whitespace(c), c.is_whitespace(), "U+{:04X}", code);
        }
    }
}

#[test]
fn is_whitespace_on_the_usual_characters() {
    for c in [' ', '\t', '\n', '\r', '\u{b}', '\u{c}', '\u{a0}', '\u{3000}'] {
        assert!(is_whitespace(c));
    }
    for c in ['a', '0', '_', '\u{8}', '\u{e}', '\u{200b}', '\u{feff}', '✓'] {
        assert!(!is_whitespace(c));
    }
}

#[test]
fn split_line_cuts_at_the_first_space_only() {
    assert_eq!(split_line("add buy milk"), ("add", "buy milk"));
    assert_eq!(split_line("complete 3"), ("complete", "3"));
    assert_eq!(split_line("view"), ("view", ""));
    assert_eq!(split_line("add  two"), ("add", " two"));
    assert_eq!(split_line("a b c d"), ("a", "b c d"));
}

#[test]
fn split_line_trims_both_ends_first() {
    assert_eq!(split_line("add buy milk\n"), ("add", "buy milk"));
    assert_eq!(split_line("  \t add buy milk \r\n"), ("add", "buy milk"));
    assert_eq!(split_line("view\n"), ("view", ""));
    assert_eq!(split_line("add \n"), ("add", ""));
    assert_eq!(split_line("\u{3000}remove 2\u{a0}"), ("remove", "2"));
}

#[test]
fn split_line_of_a_blank_line_is_two_empty_parts() {
    assert_eq!(split_line(""), ("", ""));
    assert_eq!(split_line("\n"), ("", ""));
    assert_eq!(split_line("   \t  "), ("", ""));
}

#[test]
fn split_line_splits_at_spaces_and_at_no_other_blank() {
    assert_eq!(split_line("add\tbuy milk"), ("add\tbuy", "milk"));
    assert_eq!(split_line("add\tmilk"), ("add\tmilk", ""));
    assert_eq!(split_line("add\u{a0}x y"), ("add\u{a0}x", "y"));
}

#[test]
fn split_line_keeps_text_that_is_not_ascii() {
    assert_eq!(split_line(" add café ✓ \n"), ("add", "café ✓"));
    assert_eq!(split_line("é✓ ✓é"), ("é✓", "✓é"));
}

#[test]
fn split_line_agrees_with_trim_and_splitn() {
    let pieces = ["", " ", "  ", "\t", "\n", "add", "x", "view", "\u{a0}", "é", "1"];
    for a in pieces {
        for b in pieces {
            for c in pieces {
                for d in pieces {
                    let line = format!("{}{}{}{}", a, b, c, d);
                    let parts: Vec<&str> = line.trim().splitn(2, ' ').collect();
                    let word = parts[0];
                    let argument = *parts.get(1).unwrap_or(&"");
                    assert_eq!(split_line(&line), (word, argument), "{:?}", line);
                }
            }
        }
    }
}

#[test]
fn parse_command_reads_add_with_its_whole_argument() {
    assert_eq!(parse_command("add buy milk"), Ok(Command::Add(String::from("buy milk"))));
    assert_eq!(
        parse_command("add buy  milk and eggs\n"),
        Ok(Command::Add(String::from("buy  milk and eggs")))
    );
    assert_eq!(parse_command("add 12"), Ok(Command::Add(String::from("12"))));
    assert_eq!(parse_command("add"), Ok(Command::Add(String::new())));
    assert_eq!(parse_command("add   \n"), Ok(Command::Add(String::new())));
}

#[test]
fn parse_command_reads_complete_and_remove_with_a_position() {
    assert_eq!(parse_command("complete 1"), Ok(Command::Complete(1)));
    assert_eq!(parse_command("complete 0"), Ok(Command::Complete(0)));
    assert_eq!(parse_command("remove 12\n"), Ok(Command::Remove(12)));
    assert_eq!(parse_command("  remove +3  "), Ok(Command::Remove(3)));
    assert_eq!(
        parse_command(&format!("complete {}", usize::MAX)),
        Ok(Command::Complete(usize::MAX))
    );
}

#[test]
fn parse_command_fails_on_a_position_that_is_no_number() {
    for line in [
        "complete",
        "complete abc",
        "complete -1",
        "complete 1 2",
        "complete  1",
        "complete 1.5",
        "complete 99999999999999999999999999",
        "remove",
        "remove x",
        "remove 2nd",
        "remove  2",
        "remove \t2",
    ] {
        assert_eq!(parse_command(line), Err(TaskError::ParseError), "{:?}", line);
    }
}

#[test]
fn parse_command_reads_view_and_ignores_its_argument() {
    assert_eq!(parse_command("view"), Ok(Command::List));
    assert_eq!(parse_command("view\n"), Ok(Command::List));
    assert_eq!(parse_command("view all of them"), Ok(Command::List));
    assert_eq!(parse_command("  view 3"), Ok(Command::List));
}

#[test]
fn parse_command_takes_every_other_word_as_unknown() {
    for line in [
        "", "\n", "   ", "list", "Add x", "ADD x", "adds x", "ad", "view2", "views", "complete1",
        "removes 1", "add\tx", "quit", "exit", "help", "delete 1", "1",
    ] {
        assert_eq!(parse_command(line), Ok(Command::Unknown), "{:?}", line);
    }
}
