use kvstore::command::{command_from, parse, parse_command, Command, Family};
use kvstore::error::{MyError, ParseError};

#[test]
fn parses_set_a_b() {
    assert_eq!(
        parse_command("SET a b"),
        Ok(Command::Put {
            key: "a".to_string(),
            value: "b".to_string()
        })
    );
}

#[test]
fn parses_get_a_with_extra_spaces() {
    assert_eq!(
        parse_command("   GET    a   "),
        Ok(Command::Get {
            key: "a".to_string()
        })
    );
}

#[test]
fn empty_input_is_error() {
    assert_eq!(parse_command("   "), Err(ParseError::Empty));
}

#[test]
fn unknown_command_is_error() {
    assert_eq!(
        parse_command("FoO a"),
        Err(ParseError::UnknownCommand("foo".to_string()))
    );
}

#[test]
fn wrong_arity_set_is_error() {
    assert_eq!(
        parse_command("set a"),
        Err(ParseError::WrongArity {
            command: "set".to_string(),
            expected: "2",
            found: 1
        })
    );
}

#[test]
fn list_with_no_args_is_rejected() {
    assert_eq!(
        parse_command("LIST"),
        Err(ParseError::WrongArity {
            command: "list".to_string(),
            expected: "1",
            found: 0
        })
    );
}

#[test]
fn parses_list_with_one_arg() {
    assert_eq!(parse_command("LIST ignored"), Ok(Command::List));
}

#[test]
fn parses_delete_a() {
    assert_eq!(
        parse_command("DELETE a"),
        Ok(Command::Delete {
            key: "a".to_string()
        })
    );
}

#[test]
fn parses_get_a() {
    assert_eq!(
        parse_command("get a"),
        Ok(Command::Get {
            key: "a".to_string()
        })
    );
}

#[test]
fn unknown_lower_case_command_is_error() {
    assert_eq!(
        parse_command("foo a"),
        Err(ParseError::UnknownCommand("foo".to_string()))
    );
}

#[test]
fn the_empty_line_is_empty() {
    assert_eq!(parse_command(""), Err(ParseError::Empty));
    assert_eq!(parse_command("\t\n\r"), Err(ParseError::Empty));
    assert_eq!(parse_command("\u{3000}\u{a0}\u{2028}"), Err(ParseError::Empty));
}

#[test]
fn parses_exit_with_one_arg() {
    assert_eq!(parse_command("exit now"), Ok(Command::Exit));
    assert_eq!(parse_command("Exit\tnow\n"), Ok(Command::Exit));
}

#[test]
fn exit_with_no_args_is_rejected() {
    assert_eq!(
        parse_command("exit"),
        Err(ParseError::WrongArity {
            command: "exit".to_string(),
            expected: "1",
            found: 0
        })
    );
}

#[test]
fn too_many_args_are_rejected() {
    assert_eq!(
        parse_command("get a b c"),
        Err(ParseError::WrongArity {
            command: "get".to_string(),
            expected: "1",
            found: 3
        })
    );
    assert_eq!(
        parse_command("SET a b c"),
        Err(ParseError::WrongArity {
            command: "set".to_string(),
            expected: "2",
            found: 3
        })
    );
    assert_eq!(
        parse_command("delete"),
        Err(ParseError::WrongArity {
            command: "delete".to_string(),
            expected: "1",
            found: 0
        })
    );
    assert_eq!(
        parse_command("list a b"),
        Err(ParseError::WrongArity {
            command: "list".to_string(),
            expected: "1",
            found: 2
        })
    );
}

#[test]
fn keys_and_values_keep_their_case() {
    assert_eq!(
        parse_command("sEt KeY VaLuE"),
        Ok(Command::Put {
            key: "KeY".to_string(),
            value: "VaLuE".to_string()
        })
    );
    assert_eq!(
        parse_command("GeT GET"),
        Ok(Command::Get {
            key: "GET".to_string()
        })
    );
}

#[test]
fn unknown_command_is_reported_in_lower_case() {
    assert_eq!(
        parse_command("  ÄRGER x"),
        Err(ParseError::UnknownCommand("ärger".to_string()))
    );
    assert_eq!(
        parse_command("DEL k"),
        Err(ParseError::UnknownCommand("del".to_string()))
    );
}

#[test]
fn parse_splits_off_the_first_token() {
    assert_eq!(parse("  SET  a\tb "), Some(("SET", vec!["a", "b"])));
    assert_eq!(parse("one"), Some(("one", vec![])));
    assert_eq!(parse(" \u{2003} "), None);
    assert_eq!(parse(""), None);
    assert_eq!(
        parse("a\u{a0}b\u{1680}c\u{85}d"),
        Some(("a", vec!["b", "c", "d"]))
    );
    assert_eq!(parse("é\u{200b}ü ß"), Some(("é\u{200b}ü", vec!["ß"])));
}

#[test]
fn parse_agrees_with_split_whitespace() {
    let lines = [
        "",
        " ",
        "get a",
        "\t set\u{b}k\u{c}v\r\n",
        "  x  y  z  ",
        "\u{2000}a\u{200a}b\u{202f}c\u{205f}d\u{3000}e\u{2029}",
        "a\u{1c}b\u{1f}c\u{180e}d\u{feff}e",
        "naïve café 日本語 🦀 end",
    ];
    for line in lines {
        let mut expected = line.split_whitespace();
        match parse(line) {
            None => assert_eq!(expected.next(), None),
            Some((verb, args)) => {
                assert_eq!(expected.next(), Some(verb));
                assert_eq!(expected.collect::<Vec<&str>>(), args);
            }
        }
    }
}

#[test]
fn command_from_takes_the_verb_as_it_stands() {
    assert_eq!(
        command_from("get", &vec!["a"]),
        Ok(Command::Get {
            key: "a".to_string()
        })
    );
    assert_eq!(
        command_from("GET", &vec!["a"]),
        Err(ParseError::UnknownCommand("GET".to_string()))
    );
    assert_eq!(
        command_from("set", &vec!["k", "v"]),
        Ok(Command::Put {
            key: "k".to_string(),
            value: "v".to_string()
        })
    );
    assert_eq!(
        command_from("set", &vec![]),
        Err(ParseError::WrongArity {
            command: "set".to_string(),
            expected: "2",
            found: 0
        })
    );
    assert_eq!(command_from("list", &vec!["x"]), Ok(Command::List));
    assert_eq!(command_from("exit", &vec!["x"]), Ok(Command::Exit));
    assert_eq!(
        command_from("", &vec!["x"]),
        Err(ParseError::UnknownCommand("".to_string()))
    );
}

#[test]
fn families_by_verb() {
    assert_eq!(Family::of_verb("get"), Some(Family::Get));
    assert_eq!(Family::of_verb("set"), Some(Family::Put));
    assert_eq!(Family::of_verb("delete"), Some(Family::Delete));
    assert_eq!(Family::of_verb("list"), Some(Family::List));
    assert_eq!(Family::of_verb("exit"), Some(Family::Exit));
    assert_eq!(Family::of_verb("Get"), None);
    assert_eq!(Family::of_verb("gets"), None);
    assert_eq!(Family::Put.args(), 2);
    assert_eq!(Family::Put.expected(), "2");
    for family in [Family::Get, Family::Delete, Family::List, Family::Exit] {
        assert_eq!(family.args(), 1);
        assert_eq!(family.expected(), "1");
    }
}

#[test]
fn a_parse_error_is_an_invalid_command() {
    let error = parse_command("bogus").unwrap_err();
    assert_eq!(
        MyError::from(error),
        MyError::InvalidCommand(ParseError::UnknownCommand("bogus".to_string()))
    );
    assert_eq!(
        MyError::from(ParseError::Empty),
        MyError::InvalidCommand(ParseError::Empty)
    );
}
