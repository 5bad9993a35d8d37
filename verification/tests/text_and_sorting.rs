use jfi::sorting::{stable_sort_order, text_less};
use jfi::text::{
    chars_of, contains_str, decimal_string, parse_u32, push_decimal_padded, string_from_chars,
    to_ascii_lowercase, trim,
};

fn chars(s: &str) -> Vec<char> {
    s.chars().collect()
}

#[test]
fn chars_round_trip() {
    let v = chars_of("héllo");
    assert_eq!(v, vec!['h', 'é', 'l', 'l', 'o']);
    assert_eq!(string_from_chars(&v), "héllo");
}

#[test]
fn decimal_text() {
    assert_eq!(decimal_string(0), "0");
    assert_eq!(decimal_string(4096), "4096");
    assert_eq!(decimal_string(u32::MAX), "4294967295");
    let mut out = Vec::new();
    push_decimal_padded(7, 2, &mut out);
    assert_eq!(out, vec!['0', '7']);
    let mut out = Vec::new();
    push_decimal_padded(123, 2, &mut out);
    assert_eq!(out, vec!['1', '2', '3']);
}

#[test]
fn parse_numbers() {
    assert_eq!(parse_u32(&chars("42")), Some(42));
    assert_eq!(parse_u32(&chars("+42")), Some(42));
    assert_eq!(parse_u32(&chars("007")), Some(7));
    assert_eq!(parse_u32(&chars("4294967295")), Some(u32::MAX));
    assert_eq!(parse_u32(&chars("4294967296")), None);
    assert_eq!(parse_u32(&chars("")), None);
    assert_eq!(parse_u32(&chars("+")), None);
    assert_eq!(parse_u32(&chars("-1")), None);
    assert_eq!(parse_u32(&chars("1a")), None);
}

#[test]
fn decimal_then_parse_gives_the_number_back() {
    for n in [0u32, 1, 9, 10, 99, 100, 65535, 123456789, u32::MAX] {
        assert_eq!(parse_u32(&chars(&decimal_string(n))), Some(n));
    }
}

#[test]
fn trimming_and_case() {
    assert_eq!(trim(&chars(" \t a b \n")), chars("a b"));
    assert_eq!(trim(&chars("   ")), chars(""));
    assert_eq!(to_ascii_lowercase(&chars("EnG-Ü")), chars("eng-Ü"));
}

#[test]
fn substring_search() {
    assert!(contains_str(&chars("my temp file"), "temp"));
    assert!(contains_str(&chars("abc"), ""));
    assert!(!contains_str(&chars("te"), "temp"));
    assert!(!contains_str(&chars("tmp"), "temp"));
}

#[test]
fn text_order() {
    assert!(text_less(&chars("a"), &chars("b")));
    assert!(text_less(&chars("ab"), &chars("abc")));
    assert!(!text_less(&chars("abc"), &chars("ab")));
    assert!(!text_less(&chars("x"), &chars("x")));
    assert!(text_less(&chars("Z"), &chars("a")));
}

#[test]
fn stable_sort_keeps_equal_keys_in_order() {
    let keys = vec![chars("b"), chars("a"), chars("b"), chars("a"), chars("c")];
    assert_eq!(stable_sort_order(&keys), vec![1, 3, 0, 2, 4]);
    assert_eq!(stable_sort_order(&Vec::new()), Vec::<usize>::new());
}

#[test]
fn stable_sort_is_a_permutation() {
    let keys = vec![chars("delta"), chars("alpha"), chars("charlie"), chars("alpha"), chars("bravo")];
    let mut order = stable_sort_order(&keys);
    let sorted: Vec<Vec<char>> = order.iter().map(|&i| keys[i].clone()).collect();
    let mut expected = keys.clone();
    expected.sort();
    assert_eq!(sorted, expected);
    order.sort();
    assert_eq!(order, vec![0, 1, 2, 3, 4]);
}
