use pic::text::{chars_of, contains_chars, push_decimal};

#[test]
fn decimal_of_small_and_large_numbers() {
    let mut out = String::new();
    push_decimal(&mut out, 0);
    out.push(' ');
    push_decimal(&mut out, 7);
    out.push(' ');
    push_decimal(&mut out, 10);
    out.push(' ');
    push_decimal(&mut out, 4096);
    out.push(' ');
    push_decimal(&mut out, u64::MAX);
    assert_eq!(out, "0 7 10 4096 18446744073709551615");
}

#[test]
fn chars_of_a_string() {
    assert_eq!(chars_of(""), Vec::<char>::new());
    assert_eq!(chars_of("a\u{2584}c"), vec!['a', '\u{2584}', 'c']);
}

#[test]
fn substring_is_found_anywhere() {
    let hay = chars_of("xterm-256color");
    assert!(contains_chars(&hay, &chars_of("xterm")));
    assert!(contains_chars(&hay, &chars_of("256")));
    assert!(contains_chars(&hay, &chars_of("color")));
    assert!(contains_chars(&hay, &chars_of("xterm-256color")));
    assert!(contains_chars(&hay, &chars_of("")));
    assert!(contains_chars(&chars_of(""), &chars_of("")));
}

#[test]
fn substring_is_missed_when_absent() {
    let hay = chars_of("xterm-256color");
    assert!(!contains_chars(&hay, &chars_of("kitty")));
    assert!(!contains_chars(&hay, &chars_of("xterm-256colors")));
    assert!(!contains_chars(&hay, &chars_of("colour")));
    assert!(!contains_chars(&chars_of(""), &chars_of("a")));
    assert!(!contains_chars(&chars_of("aab"), &chars_of("aba")));
}
