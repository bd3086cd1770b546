//! Searching texts, writing numbers, cutting and trimming.

use workflow_orchestrator::split::{cut_at_first, strip_suffix, trim_text};
use workflow_orchestrator::text::{
    chars_of, contains_chars, contains_str, decimal, find_from, matches_at, same_text, text_is,
};

fn chars(text: &str) -> Vec<char> {
    text.chars().collect()
}

#[test]
fn chars_of_keeps_every_character() {
    assert_eq!(chars_of(""), Vec::<char>::new());
    assert_eq!(chars_of("abc"), vec!['a', 'b', 'c']);
    assert_eq!(chars_of("né…"), vec!['n', 'é', '…']);
}

#[test]
fn matches_at_positions() {
    let hay = chars("src/tests/a.rs");
    assert!(matches_at(&hay, &chars("src"), 0));
    assert!(matches_at(&hay, &chars("tests/"), 4));
    assert!(!matches_at(&hay, &chars("tests/"), 3));
    assert!(matches_at(&hay, &chars(""), 14));
    assert!(!matches_at(&hay, &chars(""), 15));
    assert!(!matches_at(&hay, &chars("rs2"), 12));
    assert!(!matches_at(&chars("ab"), &chars("abc"), 0));
    assert!(!matches_at(&hay, &chars("s"), usize::MAX));
}

#[test]
fn find_from_gives_the_first_position() {
    let hay = chars("abcabc");
    assert_eq!(find_from(&hay, &chars("bc"), 0), Some(1));
    assert_eq!(find_from(&hay, &chars("bc"), 1), Some(1));
    assert_eq!(find_from(&hay, &chars("bc"), 2), Some(4));
    assert_eq!(find_from(&hay, &chars("bc"), 5), None);
    assert_eq!(find_from(&hay, &chars("x"), 0), None);
    assert_eq!(find_from(&hay, &chars(""), 6), Some(6));
    assert_eq!(find_from(&hay, &chars(""), 7), None);
    assert_eq!(find_from(&chars(""), &chars(""), 0), Some(0));
    assert_eq!(find_from(&chars(""), &chars("a"), 0), None);
}

#[test]
fn contains_agrees_with_the_standard_library() {
    let hays = ["", "a", "security", "in-security-bug", "secur", "ssecurity", "sécurité"];
    let needles = ["", "a", "security", "bug", "ity", "é", "sec"];
    for hay in hays {
        for needle in needles {
            assert_eq!(contains_str(hay, needle), hay.contains(needle));
            assert_eq!(contains_chars(&chars(hay), &chars(needle)), hay.contains(needle));
        }
    }
}

#[test]
fn same_text_and_text_is() {
    assert!(same_text(&chars("abc"), &chars("abc")));
    assert!(!same_text(&chars("abc"), &chars("abd")));
    assert!(!same_text(&chars("abc"), &chars("ab")));
    assert!(same_text(&chars(""), &chars("")));
    assert!(text_is("failure", "failure"));
    assert!(!text_is("failure", "Failure"));
    assert!(!text_is("failure", "failures"));
}

#[test]
fn decimal_writes_numbers() {
    assert_eq!(decimal(0), "0");
    assert_eq!(decimal(7), "7");
    assert_eq!(decimal(10), "10");
    assert_eq!(decimal(1905), "1905");
    assert_eq!(decimal(u64::MAX), "18446744073709551615");
    for n in 0..1200u64 {
        assert_eq!(decimal(n), n.to_string());
    }
}

#[test]
fn trim_agrees_with_the_standard_library() {
    let texts = [
        "",
        " ",
        "a",
        "  a b  ",
        "\t\n a \r\n",
        "\u{a0}x\u{3000}",
        "\u{2003}x y\u{2028}",
        "\u{200b}x\u{200b}",
        "\u{85}\u{1680}x\u{202f}\u{205f}",
        " \u{feff}x ",
    ];
    for text in texts {
        assert_eq!(trim_text(text), text.trim());
    }
    for code in 0..0x3100u32 {
        if let Some(c) = char::from_u32(code) {
            let text = format!("{}x{}", c, c);
            assert_eq!(trim_text(&text), text.trim());
        }
    }
}

#[test]
fn cut_at_first_separator() {
    assert_eq!(cut_at_first("a:b:c", ":"), ("a", Some("b:c")));
    assert_eq!(cut_at_first("abc", ":"), ("abc", None));
    assert_eq!(cut_at_first(":abc", ":"), ("", Some("abc")));
    assert_eq!(cut_at_first("abc:", ":"), ("abc", Some("")));
    assert_eq!(cut_at_first("", ":"), ("", None));
    assert_eq!(cut_at_first("a--b--c", "--"), ("a", Some("b--c")));
    assert_eq!(cut_at_first("é/ü", "/"), ("é", Some("ü")));
}

#[test]
fn strip_suffix_as_often_as_it_stands() {
    assert_eq!(strip_suffix("repo.git", ".git"), "repo");
    assert_eq!(strip_suffix("repo.git.git", ".git"), "repo");
    assert_eq!(strip_suffix("repo", ".git"), "repo");
    assert_eq!(strip_suffix(".git", ".git"), "");
    assert_eq!(strip_suffix("git", ".git"), "git");
    assert_eq!(strip_suffix("repo.git", ""), "repo.git");
    assert_eq!(strip_suffix("repo.gitx", ".git"), "repo.gitx");
    for text in ["a.git", "a.git.git", ".git.gita", "", "é.git"] {
        assert_eq!(strip_suffix(text, ".git"), text.trim_end_matches(".git"));
    }
}
