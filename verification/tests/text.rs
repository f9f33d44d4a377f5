use asus_steuerung::text::{enthaelt, i32_text, u32_text};

#[test]
fn u32_text_wie_to_string() {
    assert_eq!(u32_text(0), "0");
    assert_eq!(u32_text(7), "7");
    assert_eq!(u32_text(4500), "4500");
    assert_eq!(u32_text(6500), "6500");
    assert_eq!(u32_text(u32::MAX), u32::MAX.to_string());
}

#[test]
fn i32_text_wie_to_string() {
    assert_eq!(i32_text(0), "0");
    assert_eq!(i32_text(1), "1");
    assert_eq!(i32_text(-1), "-1");
    assert_eq!(i32_text(127), "127");
    assert_eq!(i32_text(i32::MIN), i32::MIN.to_string());
    assert_eq!(i32_text(i32::MAX), i32::MAX.to_string());
}

#[test]
fn enthaelt_wie_contains() {
    assert!(enthaelt("options asus_wmi fnlock_default=1\n", "fnlock_default=1"));
    assert!(!enthaelt("options asus_wmi fnlock_default=0\n", "fnlock_default=1"));
    assert!(enthaelt("abc", ""));
    assert!(enthaelt("", ""));
    assert!(!enthaelt("", "a"));
    assert!(!enthaelt("ab", "abc"));
    assert!(enthaelt("abc", "abc"));
    assert!(enthaelt("xxabab", "abab"));
    assert!(enthaelt("äöü fnlock_default=1", "fnlock_default=1"));
    assert!(!enthaelt("fnlock_default =1", "fnlock_default=1"));
}
