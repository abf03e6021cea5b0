use stratisd::decimal::{push_decimal, u64_to_string};
use stratisd::names::{compare_names, contains_string, str_eq, NameOrder};

#[test]
fn names_compare_as_strings_do() {
    let names = ["", "a", "aa", "ab", "b", "B", "z", "\u{e9}", "\u{1f600}", "a\u{0}", "/dev/sda", "/dev/sdb"];
    for a in names {
        for b in names {
            let expected = match a.cmp(b) {
                std::cmp::Ordering::Less => NameOrder::Before,
                std::cmp::Ordering::Equal => NameOrder::Same,
                std::cmp::Ordering::Greater => NameOrder::After,
            };
            assert_eq!(compare_names(a, b), expected, "{:?} against {:?}", a, b);
            assert_eq!(str_eq(a, b), a == b);
        }
    }
}

#[test]
fn a_prefix_comes_first() {
    assert_eq!(compare_names("pool", "pool1"), NameOrder::Before);
    assert_eq!(compare_names("pool1", "pool"), NameOrder::After);
    assert_eq!(compare_names("pool", "pool"), NameOrder::Same);
}

#[test]
fn contains_string_finds_whole_texts_only() {
    let list = vec!["/dev/sda".to_string(), "/dev/sdb".to_string()];
    assert!(contains_string(&list, "/dev/sda"));
    assert!(contains_string(&list, "/dev/sdb"));
    assert!(!contains_string(&list, "/dev/sd"));
    assert!(!contains_string(&list, ""));
    assert!(!contains_string(&Vec::new(), "/dev/sda"));
}

#[test]
fn numbers_are_written_in_decimal() {
    assert_eq!(u64_to_string(0), "0");
    assert_eq!(u64_to_string(7), "7");
    assert_eq!(u64_to_string(10), "10");
    assert_eq!(u64_to_string(109), "109");
    assert_eq!(u64_to_string(1234567890), "1234567890");
    assert_eq!(u64_to_string(u64::MAX), "18446744073709551615");
    for n in 0..2000u64 {
        assert_eq!(u64_to_string(n), n.to_string());
    }
}

#[test]
fn push_decimal_writes_at_the_end() {
    let mut text = String::from("/base/");
    push_decimal(&mut text, 42);
    assert_eq!(text, "/base/42");
    push_decimal(&mut text, 0);
    assert_eq!(text, "/base/420");
}
