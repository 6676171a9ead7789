use line_editor::command::{parse, skip, verb};
use line_editor::{Command, Verb};

fn read(raw: &str) -> (Verb, String) {
    let cmd = parse(raw).unwrap();
    (cmd.verb, cmd.arg)
}

#[test]
fn end_of_input_is_no_command() {
    assert_eq!(parse(""), None);
}

#[test]
fn blank_line_names_no_command() {
    assert_eq!(read("\n"), (Verb::Unknown, String::new()));
}

#[test]
fn every_leading_character_names_its_command() {
    let table = [
        ('+', Verb::Append),
        ('-', Verb::Remove),
        ('q', Verb::Quit),
        ('n', Verb::Name),
        ('p', Verb::Print),
        ('g', Verb::Goto),
        ('o', Verb::Open),
        ('l', Verb::Where),
        ('r', Verb::Replace),
        ('R', Verb::Repeat),
        ('S', Verb::Search),
        ('d', Verb::Insert),
        ('D', Verb::Duplicate),
        ('v', Verb::Paste),
        ('c', Verb::Copy),
        ('w', Verb::Write),
        ('C', Verb::Clear),
        ('.', Verb::Forward),
        (',', Verb::Backward),
        ('?', Verb::Help),
    ];
    for (c, v) in table {
        assert_eq!(verb(c), v);
        let mut raw = String::new();
        raw.push(c);
        raw.push('\n');
        assert_eq!(read(&raw), (v, String::new()));
    }
}

#[test]
fn other_leading_characters_are_unknown() {
    for c in ['x', 'Q', ' ', '0', 's', 'P', '\t', '\u{e9}', '!', ';'] {
        assert_eq!(verb(c), Verb::Unknown);
    }
    assert_eq!(read("x\n"), (Verb::Unknown, String::new()));
    assert_eq!(read(" +abc\n"), (Verb::Unknown, String::new()));
}

#[test]
fn arguments_skip_one_or_two_characters() {
    for v in [Verb::Append, Verb::Replace, Verb::Search, Verb::Insert] {
        assert_eq!(skip(v), 1);
    }
    for v in [Verb::Name, Verb::Goto, Verb::Open] {
        assert_eq!(skip(v), 2);
    }
    for v in [
        Verb::Remove,
        Verb::Quit,
        Verb::Print,
        Verb::Where,
        Verb::Repeat,
        Verb::Duplicate,
        Verb::Paste,
        Verb::Copy,
        Verb::Write,
        Verb::Clear,
        Verb::Forward,
        Verb::Backward,
        Verb::Help,
        Verb::Unknown,
    ] {
        assert_eq!(skip(v), 0);
    }
}

#[test]
fn append_takes_the_rest_of_the_line() {
    assert_eq!(read("+abc\n"), (Verb::Append, "abc".to_string()));
    assert_eq!(read("+ abc \n"), (Verb::Append, " abc ".to_string()));
    assert_eq!(read("+\n"), (Verb::Append, String::new()));
    assert_eq!(read("+"), (Verb::Append, String::new()));
    assert_eq!(read("++\n"), (Verb::Append, "+".to_string()));
}

#[test]
fn two_character_skip_drops_the_separator() {
    assert_eq!(read("g 5\n"), (Verb::Goto, "5".to_string()));
    assert_eq!(read("n notes.txt\n"), (Verb::Name, "notes.txt".to_string()));
    assert_eq!(read("o /tmp/a b.txt\n"), (Verb::Open, "/tmp/a b.txt".to_string()));
    assert_eq!(read("g5\n"), (Verb::Goto, String::new()));
    assert_eq!(read("g15\n"), (Verb::Goto, "5".to_string()));
    assert_eq!(read("g\n"), (Verb::Goto, String::new()));
    assert_eq!(read("g \n"), (Verb::Goto, String::new()));
}

#[test]
fn only_one_line_feed_is_taken_off() {
    assert_eq!(read("+abc\n\n"), (Verb::Append, "abc\n".to_string()));
    assert_eq!(read("+abc\r\n"), (Verb::Append, "abc\r".to_string()));
    assert_eq!(read("+abc"), (Verb::Append, "abc".to_string()));
}

#[test]
fn commands_without_argument_ignore_the_rest() {
    assert_eq!(read("p anything\n"), (Verb::Print, String::new()));
    assert_eq!(read("quit\n"), (Verb::Quit, String::new()));
    assert_eq!(read("-5\n"), (Verb::Remove, String::new()));
}

#[test]
fn arguments_are_counted_in_characters() {
    assert_eq!(read("+h\u{e9}llo\n"), (Verb::Append, "h\u{e9}llo".to_string()));
    assert_eq!(read("n \u{4e2d}\u{6587}\n"), (Verb::Name, "\u{4e2d}\u{6587}".to_string()));
    assert_eq!(read("S\u{e9}\n"), (Verb::Search, "\u{e9}".to_string()));
}

#[test]
fn parsed_command_compares_by_verb_and_argument() {
    assert_eq!(
        parse("r new text\n"),
        Some(Command { verb: Verb::Replace, arg: " new text".to_string() })
    );
    assert_eq!(
        parse("rnew\n"),
        Some(Command { verb: Verb::Replace, arg: "new".to_string() })
    );
}
