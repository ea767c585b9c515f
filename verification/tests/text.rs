use vssh::text::{chars_of, joined, joined3, same_text, split_whitespace, str_contains, trim};

#[test]
fn contains_finds_a_pattern_in_the_middle() {
    assert!(str_contains("Code: 403. permission denied here", "permission denied"));
}

#[test]
fn contains_finds_a_pattern_at_both_ends() {
    assert!(str_contains("abc", "ab"));
    assert!(str_contains("abc", "bc"));
    assert!(str_contains("abc", "abc"));
}

#[test]
fn contains_rejects_what_is_not_there() {
    assert!(!str_contains("abc", "abd"));
    assert!(!str_contains("ab", "abc"));
    assert!(!str_contains("", "a"));
    assert!(!str_contains("permission  denied", "permission denied"));
}

#[test]
fn contains_is_case_sensitive() {
    assert!(!str_contains("Permission Denied", "permission denied"));
    assert!(!str_contains("unknown role", "Unknown role"));
}

#[test]
fn contains_finds_the_empty_pattern_everywhere() {
    assert!(str_contains("abc", ""));
    assert!(str_contains("", ""));
}

#[test]
fn contains_handles_repeated_prefixes() {
    assert!(str_contains("aaab", "aab"));
    assert!(str_contains("ababac", "abac"));
}

#[test]
fn contains_works_beyond_ascii() {
    assert!(str_contains("grüße, wörld", "ße, w"));
    assert!(!str_contains("grüße", "gruse"));
}

#[test]
fn contains_agrees_with_std() {
    let texts = ["", "a", "permission denied", "xx missing public_key yy", "Unknown role: a"];
    let patterns = ["", "a", "permission denied", "missing public_key", "Unknown role", "zz"];
    for text in texts {
        for pattern in patterns {
            assert_eq!(str_contains(text, pattern), text.contains(pattern));
        }
    }
}

#[test]
fn chars_of_gives_every_character_in_order() {
    assert_eq!(chars_of("aß→"), vec!['a', 'ß', '→']);
    assert_eq!(chars_of(""), Vec::<char>::new());
}

#[test]
fn same_text_compares_contents() {
    assert!(same_text("yes", "yes"));
    assert!(!same_text("yes", "Yes"));
    assert!(!same_text("yes", "ye"));
    assert!(same_text("", ""));
}

#[test]
fn split_gives_the_words_in_order() {
    assert_eq!(split_whitespace("-p 2222 -v"), vec!["-p", "2222", "-v"]);
}

#[test]
fn split_of_an_empty_text_gives_nothing() {
    assert_eq!(split_whitespace(""), Vec::<String>::new());
}

#[test]
fn split_of_white_space_alone_gives_nothing() {
    assert_eq!(split_whitespace("  \t \n "), Vec::<String>::new());
}

#[test]
fn split_passes_over_runs_of_white_space() {
    assert_eq!(split_whitespace("  -A   -o\tStrictHostKeyChecking=no \n"), vec![
        "-A",
        "-o",
        "StrictHostKeyChecking=no"
    ]);
}

#[test]
fn split_knows_white_space_beyond_ascii() {
    assert_eq!(split_whitespace("a\u{a0}b\u{2003}c\u{3000}d"), vec!["a", "b", "c", "d"]);
}

#[test]
fn split_agrees_with_std() {
    let texts = ["", " ", "a", " a", "a ", "a b", "  a  b  ", "-p 22\t-v\n-x", "ä ö\u{2028}ü"];
    for text in texts {
        let expected: Vec<String> = text.split_whitespace().map(String::from).collect();
        assert_eq!(split_whitespace(text), expected);
    }
}

#[test]
fn split_gives_no_empty_word() {
    for word in split_whitespace(" a  b   c ") {
        assert!(!word.is_empty());
    }
}

#[test]
fn trim_cuts_both_ends() {
    assert_eq!(trim("  yes \n"), "yes");
    assert_eq!(trim("\thttps://vault:8200\r\n"), "https://vault:8200");
}

#[test]
fn trim_keeps_what_is_inside() {
    assert_eq!(trim(" a b "), "a b");
}

#[test]
fn trim_of_white_space_alone_is_empty() {
    assert_eq!(trim(" \n\t"), "");
    assert_eq!(trim(""), "");
}

#[test]
fn trim_agrees_with_std() {
    let texts = ["", " ", "a", " a", "a ", " a b ", "\u{a0}x\u{3000}", "\n\n"];
    for text in texts {
        assert_eq!(trim(text), text.trim());
    }
}

#[test]
fn joining_keeps_the_order() {
    assert_eq!(joined("ab", "cd"), "abcd");
    assert_eq!(joined("", "cd"), "cd");
    assert_eq!(joined3("a", "", "c"), "ac");
    assert_eq!(joined3("File '", "x", "' does not exist"), "File 'x' does not exist");
}
