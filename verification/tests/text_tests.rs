use memo_cho::text::{chars_of, extend_chars, matches_at, replace_all, replace_text, string_of};

fn cv(s: &str) -> Vec<char> {
    s.chars().collect()
}

#[test]
fn chars_and_string_round_trip() {
    assert_eq!(chars_of("a京-💝"), vec!['a', '京', '-', '💝']);
    assert_eq!(chars_of(""), Vec::<char>::new());
    assert_eq!(string_of(&vec!['m', 'e', 'm', 'o']), "memo");
    assert_eq!(string_of(&chars_of("naïve café")), "naïve café");
}

#[test]
fn matches_at_finds_the_pattern_only_where_it_stands() {
    let text = cv("ab$HOME/x");
    let pat = cv("$HOME");
    assert!(matches_at(&text, &pat, 2));
    assert!(!matches_at(&text, &pat, 0));
    assert!(!matches_at(&text, &pat, 3));
    assert!(!matches_at(&text, &pat, 5));
    assert!(!matches_at(&text, &pat, 9));
    assert!(!matches_at(&text, &pat, 100));
    assert!(!matches_at(&cv("$HO"), &pat, 0));
    assert!(matches_at(&text, &cv(""), 9));
    assert!(!matches_at(&text, &cv(""), 10));
}

#[test]
fn extend_chars_appends_in_order() {
    let mut out = cv("ab");
    extend_chars(&mut out, &cv("cd"));
    assert_eq!(out, cv("abcd"));
    extend_chars(&mut out, &cv(""));
    assert_eq!(out, cv("abcd"));
}

#[test]
fn replace_all_takes_occurrences_from_the_left_without_overlap() {
    assert_eq!(replace_all(&cv("aaaa"), &cv("aa"), &cv("b")), cv("bb"));
    assert_eq!(replace_all(&cv("aaa"), &cv("aa"), &cv("b")), cv("ba"));
    assert_eq!(replace_all(&cv("abab"), &cv("ab"), &cv("")), cv(""));
    assert_eq!(replace_all(&cv("xabyabz"), &cv("ab"), &cv("123")), cv("x123y123z"));
}

#[test]
fn replace_all_does_not_search_what_it_put_in() {
    assert_eq!(replace_all(&cv("ab"), &cv("b"), &cv("bb")), cv("abb"));
    assert_eq!(replace_all(&cv("aXb"), &cv("X"), &cv("aXb")), cv("aaXbb"));
}

#[test]
fn replace_all_leaves_text_without_the_pattern() {
    assert_eq!(replace_all(&cv("plain text"), &cv("$HOME"), &cv("/root")), cv("plain text"));
    assert_eq!(replace_all(&cv(""), &cv("x"), &cv("y")), cv(""));
    assert_eq!(replace_all(&cv("$HOM"), &cv("$HOME"), &cv("/root")), cv("$HOM"));
}

#[test]
fn replace_all_with_an_empty_pattern_changes_nothing() {
    assert_eq!(replace_all(&cv("abc"), &cv(""), &cv("-")), cv("abc"));
    assert_eq!(replace_text("abc", "", "-"), "abc");
}

#[test]
fn replace_text_agrees_with_the_standard_replace() {
    let cases = [
        ("$HOME/notes", "$HOME", "/home/alice"),
        ("$HOME$HOME", "$HOME", "~"),
        ("$$HOME", "$HOME", "h"),
        ("$HO$HOMEME", "$HOME", ""),
        ("{{ title }} and {{ title }}", "{{ title }}", "T"),
        ("{{{ title }}}", "{{ title }}", "{{ title }}"),
        ("ababab", "aba", "x"),
        ("日本語のメモ", "の", " no "),
        ("", "abc", "x"),
        ("abc", "abcd", "x"),
    ];
    for (text, pat, to) in cases {
        assert_eq!(replace_text(text, pat, to), text.replace(pat, to));
    }
}
