use tauri_info::text::{
    chars_of, concat_strs, debug_path, debug_string, decimal_string, join, remove_char, replace_str, second_field,
    skip_first_char, split_fields, starts_with, str_less, string_of,
};
use tauri_info::pattern::{last_group, Pattern};

#[test]
fn character_helpers() {
    assert_eq!(chars_of("añb"), vec!['a', 'ñ', 'b']);
    assert_eq!(string_of(&vec!['x', 'y']), "xy");
    assert_eq!(concat_strs("ab", "cd"), "abcd");
    assert_eq!(remove_char("a\nb\n", '\n'), "ab");
    assert_eq!(skip_first_char("v1.2"), "1.2");
    assert_eq!(skip_first_char(""), "");
    assert!(starts_with("git+https://x", "git"));
    assert!(!starts_with("gi", "git"));
}

#[test]
fn replace_like_std() {
    for (s, p, w) in [
        ("aaa", "aa", "b"),
        (">= 12.13.0", ">= ", ""),
        ("xyxyx", "xy", "-"),
        ("nothing", "zz", "q"),
        ("ab", "abc", ""),
    ] {
        assert_eq!(replace_str(s, p, w), s.replace(p, w));
    }
}

#[test]
fn split_and_join_like_std() {
    for s in ["rustc 1.56.0 (x y)", "", " ", "a  b", "abc"] {
        let ours = split_fields(s, ' ');
        let std: Vec<String> = s.split(' ').map(|x| x.to_string()).collect();
        assert_eq!(ours, std);
    }
    assert_eq!(second_field("cargo 1.56.0 (4ed5d137b 2021-10-04)", ' '), "1.56.0");
    let parts = vec!["2015".to_string(), "2017".to_string()];
    assert_eq!(join(&parts, ", "), "2015, 2017");
    assert_eq!(join(&Vec::new(), ", "), "");
}

#[test]
fn string_order_like_std() {
    for (a, b) in [("2017", "2019"), ("2019", "2019"), ("2022", "2019"), ("", "a"), ("a", ""), ("é", "z"), ("z", "é"), ("201", "2019")] {
        assert_eq!(str_less(a, b), a < b, "{} < {}", a, b);
    }
}

#[test]
fn decimal_and_debug() {
    assert_eq!(decimal_string(0), "0");
    assert_eq!(decimal_string(1054), "1054");
    assert_eq!(decimal_string(u64::MAX), u64::MAX.to_string());
    assert_eq!(debug_string("a\"b"), "\"a\\\"b\"");
    assert_eq!(debug_string("../x"), "\"../x\"");
    assert_eq!(debug_string("it's"), "\"it's\"");
    assert_eq!(debug_path("it's"), format!("{:?}", std::path::PathBuf::from("it's")));
    assert_eq!(debug_path("a\"b"), format!("{:?}", std::path::Path::new("a\"b")));
}

#[test]
fn pattern_groups() {
    let p = Pattern::new("([a-z]+)([0-9])?").unwrap();
    let caps = p.captures("ab1 cd");
    assert_eq!(caps.len(), 2);
    assert_eq!(caps[0], vec![Some("ab1".to_string()), Some("ab".to_string()), Some("1".to_string())]);
    assert_eq!(last_group(&caps, 1), Some("cd".to_string()));
    assert_eq!(last_group(&caps, 2), None);
    assert_eq!(last_group(&caps, 7), None);
    assert!(Pattern::new("(unclosed").is_none());
}
