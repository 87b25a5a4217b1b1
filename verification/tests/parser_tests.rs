use rusty_webex::error::ParseError;
use rusty_webex::parser::Parser;
use rusty_webex::types::{Argument, Message, OptionalArgument, RequiredArgument};
use rusty_webex::utils::{char_is_whitespace, chars_of, str_eq, tokenize};

fn pair(name: &str, value: &str) -> (String, String) {
    (name.to_string(), value.to_string())
}

fn roll_parser() -> Parser<u32> {
    let mut parser: Parser<u32> = Parser::new();
    let args: Vec<Box<dyn Argument>> = vec![Box::new(RequiredArgument::<String>::new("sides"))];
    parser.add_command("roll", args, 7);
    parser
}

fn poll_parser() -> Parser<u32> {
    let mut parser: Parser<u32> = Parser::new();
    let args: Vec<Box<dyn Argument>> = vec![
        Box::new(RequiredArgument::<String>::new("topic")),
        Box::new(OptionalArgument::<String>::new("duration")),
    ];
    parser.add_command("poll", args, 11);
    parser
}

#[test]
fn tokenize_splits_on_runs_of_whitespace() {
    assert_eq!(tokenize("@bot roll 20"), vec!["@bot", "roll", "20"]);
    assert_eq!(tokenize("  @bot \t roll\n20  "), vec!["@bot", "roll", "20"]);
    assert_eq!(tokenize("a\u{3000}b\u{a0}c"), vec!["a", "b", "c"]);
    assert_eq!(tokenize("héllo wörld"), vec!["héllo", "wörld"]);
}

#[test]
fn tokenize_of_blank_text_is_empty() {
    assert_eq!(tokenize(""), Vec::<String>::new());
    assert_eq!(tokenize(" \t\r\n"), Vec::<String>::new());
}

#[test]
fn whitespace_is_the_unicode_set() {
    for c in ['\t', '\n', '\u{b}', '\u{c}', '\r', ' ', '\u{85}', '\u{a0}', '\u{1680}', '\u{2000}',
        '\u{200a}', '\u{2028}', '\u{2029}', '\u{202f}', '\u{205f}', '\u{3000}']
    {
        assert!(char_is_whitespace(c));
        assert!(c.is_whitespace());
    }
    for c in ['a', '0', '@', '\u{8}', '\u{e}', '\u{200b}', '\u{feff}', '\u{1f}'] {
        assert!(!char_is_whitespace(c));
        assert!(!c.is_whitespace());
    }
}

#[test]
fn whitespace_agrees_with_std_on_every_char() {
    let mut n: u32 = 0;
    while n <= 0x10ffff {
        if let Some(c) = char::from_u32(n) {
            assert_eq!(char_is_whitespace(c), c.is_whitespace());
        }
        n += 1;
    }
}

#[test]
fn str_eq_compares_characters() {
    assert!(str_eq("", ""));
    assert!(str_eq("roll", "roll"));
    assert!(!str_eq("roll", "rolL"));
    assert!(!str_eq("roll", "rol"));
    assert!(!str_eq("", "a"));
    assert!(str_eq("wörld", "wörld"));
}

#[test]
fn chars_of_lists_the_characters() {
    assert_eq!(chars_of("aé b"), vec!['a', 'é', ' ', 'b']);
    assert_eq!(chars_of(""), Vec::<char>::new());
}

#[test]
fn descriptors_report_name_and_flag() {
    let required = RequiredArgument::<u8>::new("sides");
    let optional = OptionalArgument::<u8>::new("duration");
    assert_eq!(required.name(), "sides");
    assert!(required.is_required());
    assert_eq!(optional.name(), "duration");
    assert!(!optional.is_required());
    assert_eq!(required.name, "sides");
    assert_eq!(optional.name, "duration");
}

#[test]
fn empty_message_has_no_command() {
    let parser = roll_parser();
    assert_eq!(parser.parse(String::new()).err(), Some(ParseError::NoCommand));
    assert_eq!(parser.parse("   ".to_string()).err(), Some(ParseError::NoCommand));
}

#[test]
fn single_token_has_no_command() {
    let parser = roll_parser();
    assert_eq!(parser.parse("roll".to_string()).err(), Some(ParseError::NoCommand));
    assert_eq!(parser.parse(" @bot ".to_string()).err(), Some(ParseError::NoCommand));
}

#[test]
fn unregistered_keyword_is_unknown() {
    let parser = roll_parser();
    assert_eq!(parser.parse("@bot dance 20".to_string()).err(), Some(ParseError::UnknownCommand));
    assert_eq!(parser.parse("roll @bot 20".to_string()).err(), Some(ParseError::UnknownCommand));
    let empty: Parser<u32> = Parser::new();
    assert_eq!(empty.parse("@bot roll 20".to_string()).err(), Some(ParseError::UnknownCommand));
}

#[test]
fn roll_with_one_argument_is_parsed() {
    let parser = roll_parser();
    let command = parser.parse("@bot roll 20".to_string()).ok().unwrap();
    assert_eq!(command.command, "roll");
    assert_eq!(command.required_arguments.len(), 1);
    assert_eq!(command.required_arguments[0].0, "sides");
    assert!(command.optional_arguments.is_empty());
    assert_eq!(*command.callback, 7);
    // Descriptors are bound from the first token of the message on.
    assert_eq!(command.required_arguments, vec![pair("sides", "@bot")]);
}

#[test]
fn poll_with_one_of_two_arguments_misses_arguments() {
    let parser = poll_parser();
    assert_eq!(parser.parse("@bot poll budget".to_string()).err(), Some(ParseError::MissingArguments));
    assert_eq!(parser.parse("@bot poll".to_string()).err(), Some(ParseError::MissingArguments));
}

#[test]
fn poll_with_two_arguments_splits_required_and_optional() {
    let parser = poll_parser();
    let command = parser.parse("@bot poll budget 10m".to_string()).ok().unwrap();
    assert_eq!(command.command, "poll");
    assert_eq!(command.required_arguments, vec![pair("topic", "@bot")]);
    assert_eq!(command.optional_arguments, vec![pair("duration", "poll")]);
    assert_eq!(command.required_arguments.len() + command.optional_arguments.len(), 2);
    assert_eq!(*command.callback, 11);
}

#[test]
fn surplus_tokens_are_left_unbound() {
    let parser = roll_parser();
    let command = parser.parse("@bot roll 20 6 again".to_string()).ok().unwrap();
    assert_eq!(command.required_arguments, vec![pair("sides", "@bot")]);
    assert!(command.optional_arguments.is_empty());
}

#[test]
fn bindings_keep_registration_order() {
    let mut parser: Parser<&str> = Parser::new();
    let args: Vec<Box<dyn Argument>> = vec![
        Box::new(OptionalArgument::<String>::new("a")),
        Box::new(RequiredArgument::<String>::new("b")),
        Box::new(OptionalArgument::<String>::new("c")),
        Box::new(RequiredArgument::<String>::new("d")),
    ];
    parser.add_command("mix", args, "handler");
    let command = parser.parse("t0 mix t2 t3 t4 t5".to_string()).ok().unwrap();
    assert_eq!(command.required_arguments, vec![pair("b", "mix"), pair("d", "t3")]);
    assert_eq!(command.optional_arguments, vec![pair("a", "t0"), pair("c", "t2")]);
    assert_eq!(*command.callback, "handler");
    assert_eq!(parser.parse("t0 mix t2 t3 t4".to_string()).err(), Some(ParseError::MissingArguments));
}

#[test]
fn command_without_arguments_is_parsed() {
    let mut parser: Parser<u32> = Parser::new();
    parser.add_command("help", Vec::new(), 1);
    let command = parser.parse("@bot help".to_string()).ok().unwrap();
    assert_eq!(command.command, "help");
    assert!(command.required_arguments.is_empty());
    assert!(command.optional_arguments.is_empty());
}

#[test]
fn registering_again_replaces_the_command() {
    let mut parser = roll_parser();
    parser.add_command("roll", Vec::new(), 8);
    let command = parser.parse("@bot roll".to_string()).ok().unwrap();
    assert_eq!(*command.callback, 8);
    assert!(command.required_arguments.is_empty());
}

#[test]
fn other_registered_keywords_do_not_help() {
    let mut parser = poll_parser();
    parser.add_command("roll", Vec::new(), 7);
    assert_eq!(parser.parse("@bot rol 20 30".to_string()).err(), Some(ParseError::UnknownCommand));
    assert_eq!(parser.parse("@bot Roll".to_string()).err(), Some(ParseError::UnknownCommand));
}

#[test]
fn tabs_and_newlines_separate_tokens() {
    let parser = roll_parser();
    let command = parser.parse("@bot\troll\n20".to_string()).ok().unwrap();
    assert_eq!(command.command, "roll");
    assert_eq!(command.required_arguments, vec![pair("sides", "@bot")]);
}

#[test]
fn parse_error_messages() {
    assert_eq!(ParseError::NoCommand.message(), "Command was not specified!");
    assert_eq!(ParseError::UnknownCommand.message(), "You have entered an invalid Command!");
    assert_eq!(ParseError::MissingArguments.message(), "Missing required variables.");
}

#[test]
fn message_text_is_parsed() {
    let parser = roll_parser();
    let mut message = Message::default();
    assert_eq!(parser.parse_message(&message).err(), Some(ParseError::NoCommand));
    message.text = Some("@bot roll 20".to_string());
    let command = parser.parse_message(&message).ok().unwrap();
    assert_eq!(command.command, "roll");
    assert_eq!(command.required_arguments.len(), 1);
    message.text = Some("@bot dance".to_string());
    assert_eq!(parser.parse_message(&message).err(), Some(ParseError::UnknownCommand));
    message.text = Some(String::new());
    assert_eq!(parser.parse_message(&message).err(), Some(ParseError::NoCommand));
}
