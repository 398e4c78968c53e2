//! Name resolution: sanitizing, the resolved filename, the marker-file
//! path and the wide object name.

use ipc::name::{filename, sem_path, wide_name};

fn ascii(v: &[u8]) -> String {
    String::from_utf8(v.to_vec()).unwrap()
}

/// Resolution is deterministic: repeated calls on the same input give
/// the same identifier.
#[test]
fn filename_is_deterministic() {
    assert_eq!(filename("some name"), filename("some name"));
    assert_eq!(sem_path(b"/tmp", "some name"), sem_path(b"/tmp", "some name"));
    assert_eq!(wide_name("some name"), wide_name("some name"));
}

/// Only ASCII letters and digits survive sanitizing; the mix of the
/// original name follows after a dash.
#[test]
fn filename_keeps_ascii_alphanumerics() {
    let out = ascii(&filename("my-fun.semaphore!"));
    assert_eq!(out, format!("myfunsemaphore-{}", 11749658663293301679u64));
}

/// A name with nothing to keep still resolves, to just the dash and the
/// mix.
#[test]
fn filename_of_empty_name() {
    let out = ascii(&filename(""));
    assert_eq!(out, format!("-{}", 4068147018993714122u64));
}

/// Names that sanitize to the same fragment still get different
/// filenames, because the mix covers the original name.
#[test]
fn similar_names_resolve_apart() {
    assert_ne!(filename("a-b"), filename("ab"));
    assert_ne!(filename("foo1"), filename("foo2"));
}

/// The marker file sits in the dedicated subdirectory under the given
/// temporary root.
#[test]
fn sem_path_shape() {
    let p = ascii(&sem_path(b"/tmp", "foo"));
    assert_eq!(p, format!("/tmp/ipc-rs-sems/foo-{}", 2207924561028328870u64));
}

/// A root that already ends in a separator gets no second one.
#[test]
fn sem_path_with_trailing_separator() {
    assert_eq!(sem_path(b"/tmp/", "foo"), sem_path(b"/tmp", "foo"));
}

/// The wide object name carries the global-namespace prefix, the
/// resolved filename, and a terminating zero unit.
#[test]
fn wide_name_shape() {
    let w = wide_name("foo");
    let expected: Vec<u16> = format!("Global\\foo-{}", 2207924561028328870u64)
        .bytes()
        .map(|b| b as u16)
        .chain(std::iter::once(0u16))
        .collect();
    assert_eq!(w, expected);
}

/// Characters past ASCII are sanitized away but still distinguish the
/// resolved names through the mix.
#[test]
fn non_ascii_names_resolve_apart() {
    let a = filename("caf\u{e9}");
    let b = filename("cafe");
    let a_text = ascii(&a);
    assert!(a_text.starts_with("caf-"));
    assert_ne!(a, b);
}
