//! The verified string comparisons behave like their std counterparts.

use oracle_chain::str_ends_with;
use oracle_chain::str_eq;

#[test]
fn str_eq_basic() {
    assert!(str_eq("", ""));
    assert!(str_eq("provider", "provider"));
    assert!(!str_eq("provider", "Provider"));
    assert!(!str_eq("provider", "provide"));
    assert!(!str_eq("provide", "provider"));
}

#[test]
fn str_eq_multibyte() {
    assert!(str_eq("héllo", "héllo"));
    assert!(!str_eq("héllo", "hello"));
}

#[test]
fn str_ends_with_basic() {
    assert!(str_ends_with("FooInfo", "Info"));
    assert!(str_ends_with("Info", "Info"));
    assert!(str_ends_with("anything", ""));
    assert!(!str_ends_with("Foo", "Info"));
    assert!(!str_ends_with("InfoFoo", "Info"));
    assert!(!str_ends_with("nfo", "Info"));
}
