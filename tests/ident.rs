use std::collections::HashSet;

use tagless::ident::idx2ident;

#[test]
fn single_letters() {
    assert_eq!(idx2ident(1), "a");
    assert_eq!(idx2ident(2), "b");
    assert_eq!(idx2ident(26), "z");
}

#[test]
fn two_and_three_letters() {
    assert_eq!(idx2ident(27), "aa");
    assert_eq!(idx2ident(28), "ab");
    assert_eq!(idx2ident(702), "zz");
    assert_eq!(idx2ident(703), "aaa");
    assert_eq!(idx2ident(18278), "zzz");
}

#[test]
fn zero_is_empty() {
    assert_eq!(idx2ident(0), "");
}

#[test]
fn largest_index() {
    assert_eq!(idx2ident(u64::MAX as usize), "gkgwbylwrxtlpo");
}

#[test]
fn names_are_distinct_up_to_bound() {
    let mut seen = HashSet::new();
    for n in 1..=50_000usize {
        let name = idx2ident(n);
        assert!(!name.is_empty());
        assert!(name.chars().all(|c| c.is_ascii_lowercase()));
        assert!(seen.insert(name), "duplicate name at {}", n);
    }
}
