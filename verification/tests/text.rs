use patchall::text::{
    begins_with, chars_of, is_whitespace, same_chars, split_words, trim_bounds, trimmed,
};

#[test]
fn whitespace_agrees_with_the_standard_library_on_every_char() {
    let mut code: u32 = 0;
    while code <= 0x10FFFF {
        if let Some(c) = char::from_u32(code) {
            assert_eq!(is_whitespace(c), c.is_whitespace(), "U+{:04X}", code);
        }
        code += 1;
    }
}

#[test]
fn whitespace_known_characters() {
    assert!(is_whitespace(' '));
    assert!(is_whitespace('\t'));
    assert!(is_whitespace('\n'));
    assert!(is_whitespace('\r'));
    assert!(is_whitespace('\u{0B}'));
    assert!(is_whitespace('\u{0C}'));
    assert!(is_whitespace('\u{85}'));
    assert!(is_whitespace('\u{A0}'));
    assert!(is_whitespace('\u{3000}'));
    assert!(!is_whitespace('a'));
    assert!(!is_whitespace('/'));
    assert!(!is_whitespace('\u{200B}'));
    assert!(!is_whitespace('\u{180E}'));
}

#[test]
fn chars_of_keeps_every_character_in_order() {
    assert_eq!(chars_of(""), Vec::<char>::new());
    assert_eq!(chars_of("a/b"), vec!['a', '/', 'b']);
    assert_eq!(chars_of("h\u{e9}llo \u{4e16}"), vec!['h', '\u{e9}', 'l', 'l', 'o', ' ', '\u{4e16}']);
}

#[test]
fn same_chars_compares_whole_slices() {
    assert!(same_chars(&['a', 'b'], &['a', 'b']));
    assert!(same_chars(&[], &[]));
    assert!(!same_chars(&['a', 'b'], &['a']));
    assert!(!same_chars(&['a', 'b'], &['a', 'c']));
    assert!(!same_chars(&['a'], &['a', 'b']));
}

#[test]
fn begins_with_prefixes() {
    assert!(begins_with(&['/', 'u', 's', 'r', '/'], &['/', 'u', 's', 'r']));
    assert!(begins_with(&['/', 'u', 's', 'r'], &['/', 'u', 's', 'r']));
    assert!(begins_with(&['x'], &[]));
    assert!(!begins_with(&['/', 'u', 's'], &['/', 'u', 's', 'r']));
    assert!(!begins_with(&['/', 'o', 'p', 't'], &['/', 'u', 's', 'r']));
}

#[test]
fn trim_bounds_mark_the_trimmed_extent() {
    let text: Vec<char> = "  ab c \t".chars().collect();
    assert_eq!(trim_bounds(&text), (2, 6));
    let blank: Vec<char> = " \n ".chars().collect();
    let (start, end) = trim_bounds(&blank);
    assert_eq!(start, end);
    assert_eq!(trim_bounds(&[]), (0, 0));
    assert_eq!(trim_bounds(&['x']), (0, 1));
}

#[test]
fn trimmed_agrees_with_the_standard_library() {
    let samples = [
        "",
        " ",
        "a",
        " a",
        "a ",
        "  a b  ",
        "\t/usr/bin/python3 -u\r",
        "\u{a0}x\u{3000}",
        "\u{2003}\u{2003}",
        "no-space",
        " \u{e9}t\u{e9} ",
    ];
    for sample in samples.iter() {
        assert_eq!(trimmed(sample), sample.trim().to_string(), "{:?}", sample);
    }
}

#[test]
fn split_words_agrees_with_the_standard_library() {
    let samples = [
        "",
        "   ",
        "one",
        " one",
        "one ",
        "one two",
        "  one   two\tthree\n",
        "/usr/bin/python3 -u somearg",
        "a\u{a0}b\u{2028}c",
        "\u{e9}t\u{e9} \u{4e16}\u{754c}",
        "x y z ",
    ];
    for sample in samples.iter() {
        let expected: Vec<String> = sample.split_whitespace().map(|w| w.to_string()).collect();
        assert_eq!(split_words(sample), expected, "{:?}", sample);
    }
}

#[test]
fn split_words_keeps_order_and_content() {
    assert_eq!(
        split_words("  /usr/bin/awk   -f  --  x "),
        vec!["/usr/bin/awk".to_string(), "-f".to_string(), "--".to_string(), "x".to_string()]
    );
    assert_eq!(split_words(" \t "), Vec::<String>::new());
}

#[test]
fn trimming_and_splitting_agree_with_the_standard_library_on_short_texts() {
    let alphabet = ['a', '/', ' ', '\n', '\u{a0}', '\u{2003}'];
    let mut texts: Vec<String> = vec![String::new()];
    let mut round = 0;
    while round < 5 {
        let mut longer: Vec<String> = Vec::new();
        for text in texts.iter() {
            for c in alphabet.iter() {
                let mut next = text.clone();
                next.push(*c);
                longer.push(next);
            }
        }
        for text in longer.iter() {
            let expected: Vec<String> = text.split_whitespace().map(|w| w.to_string()).collect();
            assert_eq!(split_words(text), expected, "{:?}", text);
            assert_eq!(trimmed(text), text.trim().to_string(), "{:?}", text);
        }
        texts = longer;
        round += 1;
    }
}
