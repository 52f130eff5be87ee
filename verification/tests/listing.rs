use activate::generation::{last_entry, superseded_generation, Generation, ParseError};
use activate::text::{characters, first_token, is_whitespace, last_line};

fn generation(id: &str, entry: &str) -> Generation {
    Generation { id: id.to_string(), entry: entry.to_string() }
}

const TEXTS: [&str; 24] = [
    "",
    "\n",
    "\r\n",
    "\r",
    "a",
    "a\n",
    "a\r\n",
    "a\r",
    "a\n\n",
    "a\n\r\n",
    "a\nb",
    "a\nb\n",
    "a\r\nb\r\n",
    "a\r\r\n",
    "  41   2023-12-31 10:00:00   \n  42   2024-01-01 12:00:00   (current)\n",
    "41 2023-12-31\n42 2024-01-01",
    "   ",
    "\t42\tx",
    "\u{a0}42\u{2003}x",
    "42\u{3000}",
    "\u{85}\u{1680}\u{2028}\u{2029}\u{202f}\u{205f}7",
    "\u{200b}9 x",
    "x\u{180e}y z",
    "42",
];

#[test]
fn whitespace_is_the_white_space_of_std() {
    for n in 0..=0x10ffffu32 {
        if let Some(c) = char::from_u32(n) {
            assert_eq!(is_whitespace(c), c.is_whitespace(), "{:x}", n);
        }
    }
}

#[test]
fn whitespace_of_some_characters() {
    assert!(is_whitespace(' '));
    assert!(is_whitespace('\t'));
    assert!(is_whitespace('\n'));
    assert!(is_whitespace('\r'));
    assert!(is_whitespace('\u{b}'));
    assert!(is_whitespace('\u{c}'));
    assert!(is_whitespace('\u{a0}'));
    assert!(is_whitespace('\u{3000}'));
    assert!(!is_whitespace('\u{8}'));
    assert!(!is_whitespace('\u{e}'));
    assert!(!is_whitespace('a'));
    assert!(!is_whitespace('4'));
    assert!(!is_whitespace('\u{200b}'));
    assert!(!is_whitespace('\u{180e}'));
}

#[test]
fn characters_are_those_of_the_text() {
    for text in TEXTS {
        assert_eq!(characters(text), text.chars().collect::<Vec<char>>());
    }
}

#[test]
fn last_line_is_the_last_line_of_std() {
    for text in TEXTS {
        assert_eq!(last_line(text), text.lines().last().map(|l| l.to_string()), "{:?}", text);
    }
}

#[test]
fn first_token_is_the_first_token_of_std() {
    for text in TEXTS {
        assert_eq!(
            first_token(text),
            text.split_whitespace().next().map(|t| t.to_string()),
            "{:?}",
            text
        );
    }
}

#[test]
fn last_line_of_some_texts() {
    assert_eq!(last_line(""), None);
    assert_eq!(last_line("\n"), Some(String::new()));
    assert_eq!(last_line("a\nb"), Some("b".to_string()));
    assert_eq!(last_line("a\nb\n"), Some("b".to_string()));
    assert_eq!(last_line("a\nb\r\n"), Some("b".to_string()));
    assert_eq!(last_line("a\nb\r"), Some("b\r".to_string()));
    assert_eq!(last_line("a\n\n"), Some(String::new()));
    assert_eq!(last_line("a\nb\r\r\n"), Some("b\r".to_string()));
}

#[test]
fn first_token_of_some_lines() {
    assert_eq!(first_token(""), None);
    assert_eq!(first_token("  \t "), None);
    assert_eq!(first_token("42"), Some("42".to_string()));
    assert_eq!(first_token("42 2024-01-01"), Some("42".to_string()));
    assert_eq!(first_token("   42   2024-01-01"), Some("42".to_string()));
    assert_eq!(first_token("\u{a0}gen-7\u{3000}x"), Some("gen-7".to_string()));
}

#[test]
fn last_entry_names_the_last_generation() {
    assert_eq!(
        last_entry("41 2023-12-31\n42 2024-01-01"),
        Ok(generation("42", "42 2024-01-01"))
    );
    assert_eq!(
        last_entry("  41   2023-12-31 10:00:00   \n  42   2024-01-01 12:00:00   (current)\n"),
        Ok(generation("42", "  42   2024-01-01 12:00:00   (current)"))
    );
    assert_eq!(last_entry("7"), Ok(generation("7", "7")));
    assert_eq!(last_entry("7\r\n"), Ok(generation("7", "7")));
}

#[test]
fn last_entry_of_a_listing_without_one() {
    assert_eq!(last_entry(""), Err(ParseError::NoGeneration));
    assert_eq!(last_entry("\n"), Err(ParseError::NoIdentifier));
    assert_eq!(last_entry("42 x\n\n"), Err(ParseError::NoIdentifier));
    assert_eq!(last_entry("42 x\n \t \n"), Err(ParseError::NoIdentifier));
}

#[test]
fn superseded_generation_reads_bytes() {
    assert_eq!(
        superseded_generation(b"41 2023-12-31\n42 2024-01-01".to_vec()),
        Ok(generation("42", "42 2024-01-01"))
    );
    assert_eq!(
        superseded_generation("1 a\n\u{a0}\u{4e94} \u{e9}t\u{e9}\n".as_bytes().to_vec()),
        Ok(generation("\u{4e94}", "\u{a0}\u{4e94} \u{e9}t\u{e9}"))
    );
    assert_eq!(superseded_generation(Vec::new()), Err(ParseError::NoGeneration));
    assert_eq!(superseded_generation(b" \n".to_vec()), Err(ParseError::NoIdentifier));
}

#[test]
fn superseded_generation_refuses_what_is_not_text() {
    assert_eq!(superseded_generation(vec![0xff]), Err(ParseError::NotText));
    assert_eq!(superseded_generation(vec![b'4', b'2', 0xc3]), Err(ParseError::NotText));
    assert_eq!(superseded_generation(vec![0xed, 0xa0, 0x80]), Err(ParseError::NotText));
    assert_eq!(superseded_generation(vec![0xc0, 0xaf]), Err(ParseError::NotText));
}
