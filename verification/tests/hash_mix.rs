//! The 64-bit mix: reference vectors and determinism.

use ipc::hash::{mix, sip24};

/// The permutation matches the published SipHash-2-4 reference vectors
/// (key bytes 00..0f, message bytes 00..n).
#[test]
fn sip24_reference_vectors() {
    let k0: u64 = 0x0706050403020100;
    let k1: u64 = 0x0f0e0d0c0b0a0908;
    assert_eq!(sip24(k0, k1, &[]), 0x726fdb47dd0e0e31);
    assert_eq!(sip24(k0, k1, &[0x00]), 0x74f839c593dc67fd);
    assert_eq!(sip24(k0, k1, &[0, 1, 2, 3, 4, 5, 6, 7]), 0x93f5f5799a932462);
    assert_eq!(
        sip24(k0, k1, &[0, 1, 2, 3, 4, 5, 6, 7, 8, 9, 10, 11, 12, 13, 14]),
        0xa129ca6149be45e5
    );
}

/// The mix of a name is one fixed number: the same in every invocation.
#[test]
fn mix_is_deterministic() {
    assert_eq!(mix("foo"), mix("foo"));
    assert_eq!(mix("foo"), 2207924561028328870);
    assert_eq!(mix(""), 4068147018993714122);
}

/// The mix depends on the whole original name, not on its sanitized
/// form: names that sanitize alike still mix apart.
#[test]
fn mix_separates_similar_names() {
    assert_eq!(mix("a-b"), 8153626497826201121);
    assert_eq!(mix("ab"), 6308079810851964799);
    assert_ne!(mix("a-b"), mix("ab"));
    assert_ne!(mix("foo1"), mix("foo2"));
}

/// The length of the message reaches the final word, so a message and
/// its zero-padded extension hash apart.
#[test]
fn sip24_length_matters() {
    let k0: u64 = 0;
    let k1: u64 = 0;
    assert_ne!(sip24(k0, k1, &[]), sip24(k0, k1, &[0]));
    assert_ne!(sip24(k0, k1, &[0; 8]), sip24(k0, k1, &[0; 16]));
}
