use riqtshaw::entries::{insert_entry, insert_name, str_lt};
use riqtshaw::template::fill;
use riqtshaw::text::{lower_initial, replace_dots, snake_case, str_eq, upper_initial, usize_to_decimal};

#[test]
fn snake_case_splits_at_capitals() {
    assert_eq!(snake_case("myName"), "my_name");
    assert_eq!(snake_case("fooBarBaz"), "foo_bar_baz");
    assert_eq!(snake_case("Person"), "person");
    assert_eq!(snake_case("already_snake"), "already_snake");
    assert_eq!(snake_case(""), "");
}

#[test]
fn snake_case_marks_non_ascii_capitals_without_lowering_them() {
    assert_eq!(snake_case("aÉb"), "a_Éb");
}

#[test]
fn initials_change_case() {
    assert_eq!(upper_initial("name"), "Name");
    assert_eq!(upper_initial("Name"), "Name");
    assert_eq!(lower_initial("Name"), "name");
    assert_eq!(lower_initial("x"), "x");
}

#[test]
fn decimal_forms() {
    assert_eq!(usize_to_decimal(0), "0");
    assert_eq!(usize_to_decimal(7), "7");
    assert_eq!(usize_to_decimal(1234), "1234");
    assert_eq!(usize_to_decimal(10), "10");
}

#[test]
fn dots_become_underscores() {
    assert_eq!(replace_dots("a.b.c"), "a_b_c");
    assert_eq!(replace_dots("plain"), "plain");
}

#[test]
fn string_comparisons() {
    assert!(str_eq("abc", "abc"));
    assert!(!str_eq("abc", "abd"));
    assert!(str_lt("abc", "abd"));
    assert!(str_lt("ab", "abc"));
    assert!(!str_lt("b", "a"));
    assert!(!str_lt("a", "a"));
    assert!(str_lt("Z", "a"));
}

#[test]
fn table_keeps_keys_ascending_and_replaces_values() {
    let mut t: Vec<(String, u32)> = Vec::new();
    assert_eq!(insert_entry(&mut t, "b".to_string(), 2), None);
    assert_eq!(insert_entry(&mut t, "a".to_string(), 1), None);
    assert_eq!(insert_entry(&mut t, "c".to_string(), 3), None);
    let keys: Vec<&str> = t.iter().map(|e| e.0.as_str()).collect();
    assert_eq!(keys, vec!["a", "b", "c"]);
    assert_eq!(insert_entry(&mut t, "b".to_string(), 20), Some(2));
    assert_eq!(t.len(), 3);
    assert_eq!(t[1], ("b".to_string(), 20));
    assert_eq!(t[0], ("a".to_string(), 1));
    assert_eq!(t[2], ("c".to_string(), 3));
}

#[test]
fn name_set_ignores_repeats() {
    let mut names: Vec<String> = Vec::new();
    assert!(insert_name(&mut names, "quint8".to_string()));
    assert!(insert_name(&mut names, "QString".to_string()));
    assert!(!insert_name(&mut names, "quint8".to_string()));
    assert!(insert_name(&mut names, "bool".to_string()));
    assert_eq!(names, vec!["QString".to_string(), "bool".to_string(), "quint8".to_string()]);
}

#[test]
fn template_fills_named_arguments() {
    assert_eq!(fill("a {{b}} {name} {col_count}", "X", "3"), "a {b} X 3");
    assert_eq!(fill("{name}{name}", "ab", "0"), "abab");
    assert_eq!(fill("keep {other} as is", "X", "3"), "keep {other} as is");
}

#[test]
fn template_without_braces_is_unchanged() {
    assert_eq!(fill("plain text\nwith lines", "X", "3"), "plain text\nwith lines");
    assert_eq!(fill("", "X", "3"), "");
}
