//! Turning a user-supplied semaphore name into a stable platform
//! identifier.
//!
//! A name is an arbitrary string; the platforms want either a filesystem
//! path (whose file is then turned into an integer key) or a wide-character
//! object name.  Both are built the same way: the name is filtered down to
//! its ASCII letters and digits so it cannot break the host's character
//! rules, and the 64-bit mix of the *original* name (see [`crate::hash`])
//! is appended in decimal so that two names with the same filtered form
//! still resolve apart.
//!
//! Everything here is a pure function of the name (and, for the path, of
//! the temporary root handed in by the caller), so resolution is
//! deterministic across processes and restarts.  Nothing here touches the
//! filesystem; the caller creates the directory and the marker file as the
//! protocol in [`crate::protocol`] directs.

use vstd::prelude::*;
use vstd::string::StrSliceExecFns;

use crate::hash::{mix, spec_mix};

verus! {

/// ASCII '/' — the path separator.
pub const SLASH: u8 = 47;

/// The fixed project discriminator byte (ASCII 'I') fed, together with
/// the marker file's path, to the system's file-to-integer-key
/// derivation.
pub const KEY_PROJECT: u8 = 73;

/// The permission bits of the zero-length marker file: read and write
/// for the owner, read for the group.
pub const MARKER_MODE: u32 = 0o640;

/// ASCII '-' — separates the filtered name from its mix.
pub const DASH: u8 = 45;

/// Characters that survive sanitizing: ASCII letters and digits.
pub open spec fn spec_keep(c: char) -> bool {
    let u = c as u32;
    (48 <= u <= 57) || (65 <= u <= 90) || (97 <= u <= 122)
}

fn keep_char(c: char) -> (r: bool)
    ensures
        r == spec_keep(c),
{
    let u = c as u32;
    (48 <= u && u <= 57) || (65 <= u && u <= 90) || (97 <= u && u <= 122)
}

/// The sanitized name: the bytes of the characters that survive, in
/// order.
pub open spec fn spec_filtered(s: Seq<char>) -> Seq<u8>
    decreases s.len(),
{
    if s.len() == 0 {
        Seq::empty()
    } else {
        (if spec_keep(s[0]) {
            seq![s[0] as u8]
        } else {
            Seq::empty()
        }) + spec_filtered(s.drop_first())
    }
}

/// Sanitizing a concatenation sanitizes the parts.
pub proof fn lemma_filtered_concat(a: Seq<char>, b: Seq<char>)
    ensures
        spec_filtered(a + b) == spec_filtered(a) + spec_filtered(b),
    decreases a.len(),
{
    if a.len() == 0 {
        assert(a + b =~= b);
        assert(spec_filtered(a) + spec_filtered(b) =~= spec_filtered(b));
    } else {
        assert((a + b).drop_first() =~= a.drop_first() + b);
        lemma_filtered_concat(a.drop_first(), b);
        let h = if spec_keep(a[0]) {
            seq![a[0] as u8]
        } else {
            Seq::<u8>::empty()
        };
        assert(h + (spec_filtered(a.drop_first()) + spec_filtered(b)) =~= (h + spec_filtered(
            a.drop_first(),
        )) + spec_filtered(b));
    }
}

/// One more character extends the sanitized form by at most one byte.
pub proof fn lemma_filtered_push(s: Seq<char>, i: int)
    requires
        0 <= i < s.len(),
    ensures
        spec_filtered(s.take(i + 1)) == spec_filtered(s.take(i)) + (if spec_keep(s[i]) {
            seq![s[i] as u8]
        } else {
            Seq::<u8>::empty()
        }),
{
    assert(s.take(i + 1) =~= s.take(i) + seq![s[i]]);
    lemma_filtered_concat(s.take(i), seq![s[i]]);
    assert(seq![s[i]].drop_first() =~= Seq::<char>::empty());
    assert(spec_filtered(Seq::<char>::empty()) == Seq::<u8>::empty());
    let h = if spec_keep(s[i]) {
        seq![s[i] as u8]
    } else {
        Seq::<u8>::empty()
    };
    assert(spec_filtered(seq![s[i]]) == h + spec_filtered(seq![s[i]].drop_first()));
    assert(h + Seq::<u8>::empty() =~= h);
}

/// Append the sanitized bytes of `s`.
fn append_filtered(out: &mut Vec<u8>, s: &str)
    ensures
        final(out)@ == old(out)@ + spec_filtered(s@),
{
    let len = s.unicode_len();
    let mut i: usize = 0;
    while i < len
        invariant
            len == s@.len(),
            i <= len,
            out@ == old(out)@ + spec_filtered(s@.take(i as int)),
        decreases len - i,
    {
        let c = s.get_char(i);
        if keep_char(c) {
            assert(c as u32 <= 122);
            out.push(c as u8);
        }
        proof {
            lemma_filtered_push(s@, i as int);
            if spec_keep(s@[i as int]) {
                assert(out@ =~= old(out)@ + spec_filtered(s@.take(i + 1)));
            } else {
                assert(spec_filtered(s@.take(i as int)) + Seq::<u8>::empty() =~= spec_filtered(
                    s@.take(i as int),
                ));
            }
        }
        i = i + 1;
    }
    assert(s@.take(len as int) =~= s@);
}

/// The decimal digits of `n`, most significant first.
pub open spec fn spec_decimal(n: nat) -> Seq<u8>
    decreases n,
{
    if n < 10 {
        seq![(48 + n) as u8]
    } else {
        spec_decimal(n / 10) + seq![(48 + n % 10) as u8]
    }
}

/// Append the decimal digits of `n`.
fn append_decimal(out: &mut Vec<u8>, n: u64)
    ensures
        final(out)@ == old(out)@ + spec_decimal(n as nat),
    decreases n,
{
    if n < 10 {
        out.push((48 + n) as u8);
        assert(out@ =~= old(out)@ + spec_decimal(n as nat));
    } else {
        append_decimal(out, n / 10);
        out.push((48 + n % 10) as u8);
        assert(out@ =~= old(out)@ + spec_decimal(n as nat));
    }
}

/// The filename a name resolves to: its sanitized form, a dash, and the
/// decimal form of its 64-bit mix.
pub open spec fn spec_filename(name: Seq<char>) -> Seq<u8> {
    spec_filtered(name) + seq![DASH] + spec_decimal(spec_mix(name) as nat)
}

/// The filename that `name` resolves to, as path bytes.
pub fn filename(name: &str) -> (out: Vec<u8>)
    ensures
        out@ == spec_filename(name@),
{
    let mut out: Vec<u8> = Vec::new();
    append_filtered(&mut out, name);
    out.push(DASH);
    let h = mix(name);
    append_decimal(&mut out, h);
    assert(out@ =~= spec_filename(name@));
    out
}

/// The characters of the dedicated subdirectory that holds one marker
/// file per resolved name.
pub open spec fn spec_dir() -> Seq<char> {
    "ipc-rs-sems"@
}

/// The dedicated subdirectory's name.
pub fn dir_name() -> (s: &'static str)
    ensures
        s@ == spec_dir(),
{
    "ipc-rs-sems"
}

/// The bytes of a sequence of ASCII characters.
pub open spec fn spec_ascii_bytes(s: Seq<char>) -> Seq<u8>
    decreases s.len(),
{
    if s.len() == 0 {
        Seq::empty()
    } else {
        seq![s[0] as u8] + spec_ascii_bytes(s.drop_first())
    }
}

/// Append the bytes of an ASCII string.
fn append_ascii(out: &mut Vec<u8>, s: &str)
    requires
        s@.len() == 0 || vstd::string::is_ascii(s),
    ensures
        final(out)@ == old(out)@ + spec_ascii_bytes(s@),
{
    let len = s.unicode_len();
    let mut i: usize = 0;
    while i < len
        invariant
            len == s@.len(),
            i <= len,
            len > 0 ==> vstd::string::is_ascii(s),
            out@ == old(out)@ + spec_ascii_bytes(s@.take(i as int)),
        decreases len - i,
    {
        let c = s.get_char(i);
        assert((c as u32) < 128) by {
            assert(vstd::utf8::is_ascii_chars(s@));
        }
        out.push(c as u8);
        proof {
            lemma_ascii_bytes_push(s@, i as int);
        }
        i = i + 1;
    }
    assert(s@.take(len as int) =~= s@);
}

/// The byte form of an ASCII sequence grows byte by byte.
pub proof fn lemma_ascii_bytes_push(s: Seq<char>, i: int)
    requires
        0 <= i < s.len(),
    ensures
        spec_ascii_bytes(s.take(i + 1)) == spec_ascii_bytes(s.take(i)) + seq![s[i] as u8],
    decreases i,
{
    if i == 0 {
        assert(s.take(1) =~= seq![s[0]]);
        assert(seq![s[0]].drop_first() =~= Seq::<char>::empty());
        assert(spec_ascii_bytes(Seq::<char>::empty()) == Seq::<u8>::empty());
        assert(spec_ascii_bytes(seq![s[0]]) == seq![s[0] as u8] + spec_ascii_bytes(
            seq![s[0]].drop_first(),
        ));
        assert(seq![s[0] as u8] + Seq::<u8>::empty() =~= seq![s[0] as u8]);
        assert(spec_ascii_bytes(s.take(0)) == Seq::<u8>::empty());
        assert(Seq::<u8>::empty() + seq![s[0] as u8] =~= seq![s[0] as u8]);
    } else {
        lemma_ascii_bytes_push(s.drop_first(), i - 1);
        assert(s.take(i + 1).drop_first() =~= s.drop_first().take(i));
        assert(s.take(i).drop_first() =~= s.drop_first().take(i - 1));
        assert(s.drop_first()[i - 1] == s[i]);
        assert(spec_ascii_bytes(s.take(i + 1)) == seq![s[0] as u8] + spec_ascii_bytes(
            s.drop_first().take(i),
        ));
        assert(spec_ascii_bytes(s.take(i)) == seq![s[0] as u8] + spec_ascii_bytes(
            s.drop_first().take(i - 1),
        ));
        assert(seq![s[0] as u8] + (spec_ascii_bytes(s.drop_first().take(i - 1)) + seq![s[i] as u8])
            =~= (seq![s[0] as u8] + spec_ascii_bytes(s.drop_first().take(i - 1))) + seq![
            s[i] as u8,
        ]);
    }
}

/// The path of the marker file for `name` under the temporary root
/// `tmp`: `tmp`, a separator unless `tmp` already ends in one, the
/// dedicated subdirectory, a separator, and the resolved filename.
pub open spec fn spec_sem_path(tmp: Seq<u8>, name: Seq<char>) -> Seq<u8> {
    let sep: Seq<u8> = if tmp.len() > 0 && tmp[tmp.len() - 1] == SLASH {
        Seq::empty()
    } else {
        seq![SLASH]
    };
    tmp + sep + spec_ascii_bytes(spec_dir()) + seq![SLASH] + spec_filename(name)
}

/// The marker-file path for `name` under the temporary root `tmp` (a
/// byte path, as the host filesystem sees it).
pub fn sem_path(tmp: &[u8], name: &str) -> (out: Vec<u8>)
    ensures
        out@ == spec_sem_path(tmp@, name@),
{
    let mut out: Vec<u8> = vstd::slice::slice_to_vec(tmp);
    if out.len() == 0 || out[out.len() - 1] != SLASH {
        out.push(SLASH);
    }
    proof {
        reveal_strlit("ipc-rs-sems");
    }
    append_ascii(&mut out, dir_name());
    out.push(SLASH);
    let name_part = filename(name);
    out.extend_from_slice(name_part.as_slice());
    assert(out@ =~= spec_sem_path(tmp@, name@));
    out
}

/// Resolving a name is deterministic: the resolved filename, path and
/// wide name are functions of the name's characters (and the given
/// temporary root) alone, so every invocation — in any process, before or
/// after a restart — yields the same identifier.
pub proof fn lemma_resolution_deterministic(
    tmp: Seq<u8>,
    tmp2: Seq<u8>,
    a: Seq<char>,
    b: Seq<char>,
)
    requires
        a == b,
        tmp == tmp2,
    ensures
        spec_filename(a) == spec_filename(b),
        spec_sem_path(tmp, a) == spec_sem_path(tmp2, b),
        spec_wide_name(a) == spec_wide_name(b),
{
}

/// The characters of the global-namespace prefix of a wide object name.
pub open spec fn spec_wide_prefix() -> Seq<char> {
    "Global\\"@
}

/// The global-namespace prefix of a wide object name.
pub fn wide_prefix() -> (s: &'static str)
    ensures
        s@ == spec_wide_prefix(),
{
    "Global\\"
}

/// The wide characters of a sequence of bytes, one wide unit per byte.
pub open spec fn spec_bytes_wide(s: Seq<u8>) -> Seq<u16>
    decreases s.len(),
{
    if s.len() == 0 {
        Seq::empty()
    } else {
        seq![s[0] as u16] + spec_bytes_wide(s.drop_first())
    }
}

/// The wide object name a name resolves to on the handle-based platform:
/// the global-namespace prefix, the sanitized name, a dash, the decimal
/// mix, and a terminating zero unit.
pub open spec fn spec_wide_name(name: Seq<char>) -> Seq<u16> {
    spec_bytes_wide(spec_ascii_bytes(spec_wide_prefix()) + spec_filename(name)) + seq![0u16]
}

/// The wide, zero-terminated object name that `name` resolves to.
pub fn wide_name(name: &str) -> (out: Vec<u16>)
    ensures
        out@ == spec_wide_name(name@),
{
    let mut bytes: Vec<u8> = Vec::new();
    proof {
        reveal_strlit("Global\\");
    }
    append_ascii(&mut bytes, wide_prefix());
    let name_part = filename(name);
    bytes.extend_from_slice(name_part.as_slice());
    let mut out: Vec<u16> = Vec::new();
    let mut i: usize = 0;
    while i < bytes.len()
        invariant
            i <= bytes@.len(),
            bytes@ == spec_ascii_bytes(spec_wide_prefix()) + spec_filename(name@),
            out@ == spec_bytes_wide(bytes@.take(i as int)),
        decreases bytes@.len() - i,
    {
        out.push(bytes[i] as u16);
        proof {
            lemma_bytes_wide_push(bytes@, i as int);
        }
        i = i + 1;
    }
    assert(bytes@.take(bytes@.len() as int) =~= bytes@);
    out.push(0);
    assert(out@ =~= spec_wide_name(name@));
    out
}

/// The wide form of a byte sequence grows unit by unit.
pub proof fn lemma_bytes_wide_push(s: Seq<u8>, i: int)
    requires
        0 <= i < s.len(),
    ensures
        spec_bytes_wide(s.take(i + 1)) == spec_bytes_wide(s.take(i)) + seq![s[i] as u16],
    decreases i,
{
    if i == 0 {
        assert(s.take(1) =~= seq![s[0]]);
        assert(seq![s[0]].drop_first() =~= Seq::<u8>::empty());
        assert(spec_bytes_wide(Seq::<u8>::empty()) == Seq::<u16>::empty());
        assert(spec_bytes_wide(seq![s[0]]) == seq![s[0] as u16] + spec_bytes_wide(
            seq![s[0]].drop_first(),
        ));
        assert(seq![s[0] as u16] + Seq::<u16>::empty() =~= seq![s[0] as u16]);
        assert(spec_bytes_wide(s.take(0)) == Seq::<u16>::empty());
        assert(Seq::<u16>::empty() + seq![s[0] as u16] =~= seq![s[0] as u16]);
    } else {
        lemma_bytes_wide_push(s.drop_first(), i - 1);
        assert(s.take(i + 1).drop_first() =~= s.drop_first().take(i));
        assert(s.take(i).drop_first() =~= s.drop_first().take(i - 1));
        assert(s.drop_first()[i - 1] == s[i]);
        assert(spec_bytes_wide(s.take(i + 1)) == seq![s[0] as u16] + spec_bytes_wide(
            s.drop_first().take(i),
        ));
        assert(spec_bytes_wide(s.take(i)) == seq![s[0] as u16] + spec_bytes_wide(
            s.drop_first().take(i - 1),
        ));
        assert(seq![s[0] as u16] + (spec_bytes_wide(s.drop_first().take(i - 1)) + seq![
            s[i] as u16,
        ]) =~= (seq![s[0] as u16] + spec_bytes_wide(s.drop_first().take(i - 1))) + seq![
            s[i] as u16,
        ]);
    }
}

} // verus!
