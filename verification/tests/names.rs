use duchess_macro::class_info::Id;
use duchess_macro::codegen::input_names;
use duchess_macro::text::{decimal_string, dots_to_slashes, split_at_dots};

fn id(name: &str) -> Id {
    Id { data: name.to_string() }
}

#[test]
fn jni_name_has_slashes_for_dots() {
    assert_eq!(id("java.lang.Object").to_jni_name(), "java/lang/Object");
    assert_eq!(id("Object").to_jni_name(), "Object");
    assert_eq!(id("").to_jni_name(), "");
    assert_eq!(id("a..b.").to_jni_name(), "a//b/");
    assert_eq!(id("a/b.c").to_jni_name(), "a/b/c");
    assert_eq!(dots_to_slashes("h\u{e9}.\u{4e16}"), "h\u{e9}/\u{4e16}");
}

#[test]
fn module_name_has_one_segment_per_piece() {
    assert_eq!(id("java.lang.Object").to_module_name(), vec!["java", "lang", "Object"]);
    assert_eq!(id("Object").to_module_name(), vec!["Object"]);
    assert_eq!(id("").to_module_name(), vec![""]);
    assert_eq!(id("a.").to_module_name(), vec!["a", ""]);
    assert_eq!(id(".a").to_module_name(), vec!["", "a"]);
    assert_eq!(id("a..b").to_module_name(), vec!["a", "", "b"]);
    assert_eq!(split_at_dots("."), vec!["", ""]);
    assert_eq!(split_at_dots("h\u{e9}.\u{4e16}x"), vec!["h\u{e9}", "\u{4e16}x"]);
}

#[test]
fn split_agrees_with_std() {
    for text in ["", ".", "a", "a.b", "java.util.Map.Entry", "..", "x.y.", ".x.y", "a. b"] {
        let expected: Vec<&str> = text.split('.').collect();
        assert_eq!(split_at_dots(text), expected);
        assert_eq!(split_at_dots(text).join("."), text);
        assert_eq!(dots_to_slashes(text), text.replace('.', "/"));
    }
}

#[test]
fn decimal_is_what_std_prints() {
    for n in [0usize, 1, 9, 10, 11, 99, 100, 101, 1234567890, usize::MAX] {
        assert_eq!(decimal_string(n), n.to_string());
    }
    assert_eq!(decimal_string(0), "0");
    assert_eq!(decimal_string(907), "907");
}

#[test]
fn argument_names_count_from_zero() {
    assert!(input_names(0).is_empty());
    assert_eq!(input_names(3), vec!["a0", "a1", "a2"]);
    assert_eq!(input_names(11)[10], "a10");
}
