use securenet::text::{
    concat2, concat3, contains_text, copy_texts, decimal_text, hex16, join, same_text,
    strip_prefix, texts_of, trim,
};

fn list(items: &[&str]) -> Vec<String> {
    items.iter().map(|s| s.to_string()).collect()
}

#[test]
fn trim_drops_both_ends() {
    assert_eq!(trim(" \t a b \n"), "a b");
    assert_eq!(trim(""), "");
    assert_eq!(trim(" \n "), "");
    assert_eq!(trim("\u{3000}x\u{2028}"), "x");
    assert_eq!(trim("x"), "x");
}

#[test]
fn trim_knows_the_same_white_space_as_std() {
    for n in 0..=0x10ffffu32 {
        if let Some(c) = char::from_u32(n) {
            let s = format!("{c}x{c}");
            assert_eq!(trim(&s), s.trim(), "{n:x}");
        }
    }
}

#[test]
fn texts_are_compared_and_joined() {
    assert!(same_text("abc", "abc"));
    assert!(!same_text("abc", "abd"));
    assert_eq!(concat2("a", "b"), "ab");
    assert_eq!(concat3("a", "b", "c"), "abc");
    assert_eq!(join(&list(&[]), ","), "");
    assert_eq!(join(&list(&["user"]), ","), "user");
    assert_eq!(join(&list(&["user", "admin", ""]), ","), "user,admin,");
    assert!(contains_text(&list(&["a", "b"]), "b"));
    assert!(!contains_text(&list(&["a", "b"]), "c"));
    assert_eq!(copy_texts(&list(&["a", "b"])), list(&["a", "b"]));
}

#[test]
fn prefixes_are_stripped() {
    assert_eq!(strip_prefix("Bearer x", "Bearer "), Some("x"));
    assert_eq!(strip_prefix("Bearer ", "Bearer "), Some(""));
    assert_eq!(strip_prefix("bearer x", "Bearer "), None);
    assert_eq!(strip_prefix("Bear", "Bearer "), None);
    assert_eq!(strip_prefix("\u{e4}b", "\u{e4}"), Some("b"));
}

#[test]
fn numbers_are_written() {
    assert_eq!(hex16(1), "0000000000000001");
    assert_eq!(hex16(0xdead_beef), "00000000deadbeef");
    assert_eq!(hex16(u64::MAX), "ffffffffffffffff");
    assert_eq!(decimal_text(0), "0");
    assert_eq!(decimal_text(3), "3");
    assert_eq!(decimal_text(4_294_967_295), "4294967295");
}

#[test]
fn lists_of_texts_must_be_complete() {
    let some = |s: &str| Some(s.to_string());
    assert_eq!(texts_of(&vec![some("a"), some("b")]), Some(list(&["a", "b"])));
    assert_eq!(texts_of(&vec![some("a"), None]), None);
    assert_eq!(texts_of(&Vec::new()), Some(list(&[])));
}

#[test]
fn padded_numbers_are_ordered_like_numbers() {
    let numbers = [0, 1, 9, 10, 15, 16, 255, 256, 0x9f, 0xa0, u64::MAX - 1, u64::MAX];
    for a in numbers {
        for b in numbers {
            assert_eq!(hex16(a) < hex16(b), a < b);
        }
        assert_eq!(hex16(a), format!("{a:016x}"));
    }
}
