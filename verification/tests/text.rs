use adblock::text::{eq_ignore_ascii_case, str_eq, trim_str};

#[test]
fn trimming_matches_std() {
    for s in ["", "   ", " a ", "\u{2003}x y\u{205f}", "\t\nab\r", "ab", "\u{85}q\u{a0}"] {
        assert_eq!(trim_str(s), s.trim());
    }
}

#[test]
fn case_insensitive_equality_matches_std() {
    let pairs = [("ABC", "abc"), ("a", "b"), ("Ünï", "ünï"), ("ab", "abc"), ("", "")];
    for (a, b) in pairs {
        assert_eq!(eq_ignore_ascii_case(a, b), a.eq_ignore_ascii_case(b));
        assert_eq!(str_eq(a, b), a == b);
    }
}
