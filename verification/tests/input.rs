use quicduck::input::{parse_line, Command};

fn message(line: &str) -> String {
    match parse_line(line) {
        Command::Message { content } => content,
        other => panic!("no message: {:?}", other),
    }
}

#[test]
fn quit_is_recognised() {
    assert!(matches!(parse_line("quit\n"), Command::Quit));
    assert!(matches!(parse_line("  quit \r\n"), Command::Quit));
    assert_eq!(message("quit now\n"), "quit now");
    assert_eq!(message("Quit\n"), "Quit");
    assert_eq!(message("\"quit\""), "\"quit\"");
}

#[test]
fn white_space_is_blank() {
    assert!(matches!(parse_line(""), Command::Blank));
    assert!(matches!(parse_line("\n"), Command::Blank));
    assert!(matches!(parse_line(" \t\u{3000}\r\n"), Command::Blank));
}

#[test]
fn message_is_trimmed() {
    assert_eq!(message("  hello  world \n"), "hello  world");
    assert_eq!(message("\u{a0}鸭\u{2003}"), "鸭");
    assert_eq!(message("\u{200b}"), "\u{200b}");
}

#[test]
fn exactly_the_white_space_characters_are_blank() {
    let mut found = Vec::new();
    for c in '\u{0}'..='\u{10ffff}' {
        let mut line = String::new();
        line.push(c);
        if matches!(parse_line(&line), Command::Blank) {
            found.push(c as u32);
        }
    }
    let expected = vec![
        0x9, 0xa, 0xb, 0xc, 0xd, 0x20, 0x85, 0xa0, 0x1680, 0x2000, 0x2001, 0x2002, 0x2003, 0x2004,
        0x2005, 0x2006, 0x2007, 0x2008, 0x2009, 0x200a, 0x2028, 0x2029, 0x202f, 0x205f, 0x3000,
    ];
    assert_eq!(found, expected);
}
