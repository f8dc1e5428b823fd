use boots_core::text::{
    chars_eq, concat2, concat3, digit, from_chars, from_range, has_at, is_whitespace, push_all,
    push_decimal, push_hex, push_str, split, starts_with, str_eq, to_chars, trim_bounds,
};

fn text(v: &[char]) -> String {
    v.iter().collect()
}

#[test]
fn white_space_is_what_std_says() {
    for code in 0..=0x10ffff_u32 {
        if let Some(c) = char::from_u32(code) {
            assert_eq!(is_whitespace(c), c.is_whitespace(), "U+{:04X}", code);
        }
    }
}

#[test]
fn trimming_is_what_std_says() {
    for s in ["", " ", "a", " a", "a ", "\t a b \n", "\u{a0}x\u{3000}", "   ", "a  b", "\u{200b}a"] {
        let v = to_chars(s);
        let (a, b) = trim_bounds(&v, 0, v.len());
        assert_eq!(text(&v[a..b]), s.trim(), "{:?}", s);
    }
    let v = to_chars("ab  cd  ");
    assert_eq!(trim_bounds(&v, 2, 8), (4, 6));
    assert_eq!(trim_bounds(&v, 2, 4), (4, 4));
    assert_eq!(trim_bounds(&v, 0, 0), (0, 0));
}

#[test]
fn splitting_is_what_std_says() {
    for s in ["", ",", "a", "a,b", ",a,,b,", "no commas", ",,,", "caf\u{e9},\u{1f600}"] {
        let pieces: Vec<String> = split(&to_chars(s), ',').iter().map(|p| text(p)).collect();
        let expected: Vec<&str> = s.split(',').collect();
        assert_eq!(pieces, expected, "{:?}", s);
    }
}

#[test]
fn characters_and_strings() {
    assert_eq!(to_chars("a\u{e9}\u{1f600}"), vec!['a', '\u{e9}', '\u{1f600}']);
    assert!(to_chars("").is_empty());
    assert_eq!(from_chars(&vec!['x', '\u{1f600}']), "x\u{1f600}");
    assert_eq!(from_range(&to_chars("hello"), 1, 4), "ell");
    assert_eq!(from_range(&to_chars("hello"), 2, 2), "");
    assert_eq!(concat2("ab", "cd"), "abcd");
    assert_eq!(concat3("a", "", "c"), "ac");
    let mut out = vec!['>'];
    push_str(&mut out, "ab");
    push_all(&mut out, &vec!['c']);
    assert_eq!(text(&out), ">abc");
}

#[test]
fn comparing_and_matching() {
    assert!(str_eq("", ""));
    assert!(str_eq("abc", "abc"));
    assert!(!str_eq("abc", "abd"));
    assert!(!str_eq("abc", "ab"));
    assert!(chars_eq(&to_chars("x"), &to_chars("x")));
    assert!(!chars_eq(&to_chars("x"), &to_chars("X")));
    let t = to_chars("hello world");
    assert!(has_at(&t, 0, &to_chars("hello")));
    assert!(has_at(&t, 6, &to_chars("world")));
    assert!(has_at(&t, 11, &to_chars("")));
    assert!(!has_at(&t, 12, &to_chars("")));
    assert!(!has_at(&t, 7, &to_chars("world")));
    assert!(!has_at(&t, 6, &to_chars("worlds")));
    assert!(!has_at(&t, usize::MAX, &to_chars("a")));
    assert!(starts_with("image/png", "image/"));
    assert!(starts_with("x", ""));
    assert!(!starts_with("", "x"));
}

#[test]
fn numbers_in_decimal_and_hex() {
    for n in [0_u64, 1, 9, 10, 11, 99, 100, 12345, 1_000_000_007, u64::MAX - 1, u64::MAX] {
        let mut out = Vec::new();
        push_decimal(&mut out, n);
        assert_eq!(text(&out), n.to_string());
        let mut hex = Vec::new();
        push_hex(&mut hex, n, 16);
        assert_eq!(text(&hex), format!("{:016x}", n));
    }
    let mut short = Vec::new();
    push_hex(&mut short, 0xabcdef, 4);
    assert_eq!(text(&short), "cdef");
    let mut none = vec!['z'];
    push_hex(&mut none, 5, 0);
    assert_eq!(text(&none), "z");
    assert_eq!(digit(0), '0');
    assert_eq!(digit(9), '9');
    assert_eq!(digit(10), 'a');
    assert_eq!(digit(15), 'f');
}
