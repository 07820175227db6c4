use moix::text::{chars_of, concat3, contains, find_chars, push_decimal, split_once, starts_with_char, str_eq};

#[test]
fn split_once_at_first_occurrence() {
    assert_eq!(split_once("a=b=c", "="), Some(("a".to_string(), "b=c".to_string())));
    assert_eq!(split_once("abc", "x"), None);
    assert_eq!(split_once("abc", ""), Some(("".to_string(), "abc".to_string())));
    assert_eq!(split_once("héllo wörld", "ö"), Some(("héllo w".to_string(), "rld".to_string())));
}

#[test]
fn search_helpers() {
    assert!(contains("en-US-AriaNeural", "-US-"));
    assert!(!contains("en-GB-SoniaNeural", "-US-"));
    assert_eq!(find_chars(&chars_of("abcabc"), &chars_of("ca")), Some(2));
    assert!(starts_with_char("#rust", '#'));
    assert!(!starts_with_char("", '#'));
    assert!(str_eq("same", "same"));
    assert!(!str_eq("same", "Same"));
    assert_eq!(concat3("a", "b", "c"), "abc");
}

#[test]
fn decimal_notation() {
    let mut s = String::from("n=");
    push_decimal(&mut s, 0);
    assert_eq!(s, "n=0");
    let mut t = String::new();
    push_decimal(&mut t, 18446744073709551615);
    assert_eq!(t, "18446744073709551615");
}
