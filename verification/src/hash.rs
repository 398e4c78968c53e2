//! The 64-bit keyed mix behind stable name resolution.
//!
//! Two differently named semaphores must end up under different platform
//! identifiers even after their names are sanitized down to a common
//! filename fragment, so the resolver appends a 64-bit mix of the original
//! name and a fixed library salt.  The mix is SipHash-2-4: keyed, well
//! distributed, and cheap.  It is implemented here and proved equal to its
//! mathematical definition, so resolution is a pure function of the name —
//! the same name gives the same identifier in every process and after
//! every restart.
//!
//! The message fed to the permutation is the name's characters, each as
//! four little-endian bytes of its code point, followed by the characters
//! of the fixed salt the same way.  Because the salt is a fixed suffix,
//! two names produce the same message only if they are the same name.

use vstd::prelude::*;
use vstd::string::StrSliceExecFns;

verus! {

/// The characters of the fixed library salt that is mixed into every name.
pub open spec fn spec_salt() -> Seq<char> {
    "ipc-rs"@
}

/// The fixed library salt.
pub fn salt() -> (s: &'static str)
    ensures
        s@ == spec_salt(),
{
    "ipc-rs"
}

/// First half of the fixed 128-bit key of the mix.
pub const KEY0: u64 = 0x6970632d72732d30;

/// Second half of the fixed 128-bit key of the mix.
pub const KEY1: u64 = 0x6970632d72732d31;

/// The four 64-bit lanes of the permutation state.
#[derive(Clone, Copy, Debug, PartialEq, Eq, Structural)]
pub struct Lanes {
    pub v0: u64,
    pub v1: u64,
    pub v2: u64,
    pub v3: u64,
}

/// Rotate a 64-bit lane left by `r` bits.
pub open spec fn spec_rotl(x: u64, r: u64) -> u64
    recommends
        0 < r < 64,
{
    (x << r) | (x >> ((64 - r) as u64))
}

fn rotl(x: u64, r: u64) -> (res: u64)
    requires
        0 < r < 64,
    ensures
        res == spec_rotl(x, r),
{
    (x << r) | (x >> (64 - r))
}

/// One round of the permutation.
pub open spec fn spec_round(s: Lanes) -> Lanes {
    let a0 = s.v0.wrapping_add(s.v1);
    let b1 = spec_rotl(s.v1, 13) ^ a0;
    let c0 = spec_rotl(a0, 32);
    let a2 = s.v2.wrapping_add(s.v3);
    let b3 = spec_rotl(s.v3, 16) ^ a2;
    let d0 = c0.wrapping_add(b3);
    let c3 = spec_rotl(b3, 21) ^ d0;
    let b2 = a2.wrapping_add(b1);
    let c1 = spec_rotl(b1, 17) ^ b2;
    let c2 = spec_rotl(b2, 32);
    Lanes { v0: d0, v1: c1, v2: c2, v3: c3 }
}

fn round(s: Lanes) -> (r: Lanes)
    ensures
        r == spec_round(s),
{
    let a0 = s.v0.wrapping_add(s.v1);
    let b1 = rotl(s.v1, 13) ^ a0;
    let c0 = rotl(a0, 32);
    let a2 = s.v2.wrapping_add(s.v3);
    let b3 = rotl(s.v3, 16) ^ a2;
    let d0 = c0.wrapping_add(b3);
    let c3 = rotl(b3, 21) ^ d0;
    let b2 = a2.wrapping_add(b1);
    let c1 = rotl(b1, 17) ^ b2;
    let c2 = rotl(b2, 32);
    Lanes { v0: d0, v1: c1, v2: c2, v3: c3 }
}

/// The lanes before any message byte is mixed in.
pub open spec fn spec_init(k0: u64, k1: u64) -> Lanes {
    Lanes {
        v0: k0 ^ 0x736f6d6570736575,
        v1: k1 ^ 0x646f72616e646f6d,
        v2: k0 ^ 0x6c7967656e657261,
        v3: k1 ^ 0x7465646279746573,
    }
}

/// Mix one 64-bit message word into the lanes: two rounds between the
/// xor into the last lane and the xor into the first.
pub open spec fn spec_absorb(s: Lanes, w: u64) -> Lanes {
    let t = spec_round(
        spec_round(Lanes { v0: s.v0, v1: s.v1, v2: s.v2, v3: s.v3 ^ w }),
    );
    Lanes { v0: t.v0 ^ w, v1: t.v1, v2: t.v2, v3: t.v3 }
}

fn absorb(s: Lanes, w: u64) -> (r: Lanes)
    ensures
        r == spec_absorb(s, w),
{
    let t = round(round(Lanes { v0: s.v0, v1: s.v1, v2: s.v2, v3: s.v3 ^ w }));
    Lanes { v0: t.v0 ^ w, v1: t.v1, v2: t.v2, v3: t.v3 }
}

/// The little-endian 64-bit word made of eight bytes.
pub open spec fn spec_le64(b0: u8, b1: u8, b2: u8, b3: u8, b4: u8, b5: u8, b6: u8, b7: u8) -> u64 {
    (b0 as u64) | ((b1 as u64) << 8) | ((b2 as u64) << 16) | ((b3 as u64) << 24) | ((b4 as u64)
        << 32) | ((b5 as u64) << 40) | ((b6 as u64) << 48) | ((b7 as u64) << 56)
}

/// The `i`-th full message word.
pub open spec fn spec_word(m: Seq<u8>, i: int) -> u64
    recommends
        0 <= i,
        8 * i + 8 <= m.len(),
{
    spec_le64(
        m[8 * i],
        m[8 * i + 1],
        m[8 * i + 2],
        m[8 * i + 3],
        m[8 * i + 4],
        m[8 * i + 5],
        m[8 * i + 6],
        m[8 * i + 7],
    )
}

/// The lanes after the first `i` full message words.
pub open spec fn spec_lanes_after(k0: u64, k1: u64, m: Seq<u8>, i: int) -> Lanes
    decreases i,
{
    if i <= 0 {
        spec_init(k0, k1)
    } else {
        spec_absorb(spec_lanes_after(k0, k1, m, i - 1), spec_word(m, i - 1))
    }
}

/// The bytes of the message that do not fill a word, as the low bytes of a
/// 64-bit word.
pub open spec fn spec_tail(m: Seq<u8>) -> u64 {
    let base = 8 * ((m.len() as int) / 8);
    let r = (m.len() as int) % 8;
    if r == 0 {
        0
    } else if r == 1 {
        m[base] as u64
    } else if r == 2 {
        (m[base] as u64) | ((m[base + 1] as u64) << 8)
    } else if r == 3 {
        (m[base] as u64) | ((m[base + 1] as u64) << 8) | ((m[base + 2] as u64) << 16)
    } else if r == 4 {
        (m[base] as u64) | ((m[base + 1] as u64) << 8) | ((m[base + 2] as u64) << 16) | ((m[base
            + 3] as u64) << 24)
    } else if r == 5 {
        (m[base] as u64) | ((m[base + 1] as u64) << 8) | ((m[base + 2] as u64) << 16) | ((m[base
            + 3] as u64) << 24) | ((m[base + 4] as u64) << 32)
    } else if r == 6 {
        (m[base] as u64) | ((m[base + 1] as u64) << 8) | ((m[base + 2] as u64) << 16) | ((m[base
            + 3] as u64) << 24) | ((m[base + 4] as u64) << 32) | ((m[base + 5] as u64) << 40)
    } else {
        (m[base] as u64) | ((m[base + 1] as u64) << 8) | ((m[base + 2] as u64) << 16) | ((m[base
            + 3] as u64) << 24) | ((m[base + 4] as u64) << 32) | ((m[base + 5] as u64) << 40) | ((
        m[base + 6] as u64) << 48)
    }
}

/// The final message word: the message length modulo 256 in the top byte,
/// over the bytes of the unfilled tail.
pub open spec fn spec_last_word(m: Seq<u8>) -> u64 {
    (((m.len() as int) % 256) as u64) << 56 | spec_tail(m)
}

/// SipHash-2-4 of a byte message under a 128-bit key.
pub open spec fn spec_sip24(k0: u64, k1: u64, m: Seq<u8>) -> u64 {
    let s = spec_absorb(
        spec_lanes_after(k0, k1, m, (m.len() as int) / 8),
        spec_last_word(m),
    );
    let t = spec_round(
        spec_round(
            spec_round(spec_round(Lanes { v0: s.v0, v1: s.v1, v2: s.v2 ^ 0xff, v3: s.v3 })),
        ),
    );
    t.v0 ^ t.v1 ^ t.v2 ^ t.v3
}

/// SipHash-2-4 of `msg` under the key `(k0, k1)`.
pub fn sip24(k0: u64, k1: u64, msg: &[u8]) -> (h: u64)
    ensures
        h == spec_sip24(k0, k1, msg@),
{
    let n = msg.len();
    let full: usize = n / 8;
    let mut s = Lanes {
        v0: k0 ^ 0x736f6d6570736575,
        v1: k1 ^ 0x646f72616e646f6d,
        v2: k0 ^ 0x6c7967656e657261,
        v3: k1 ^ 0x7465646279746573,
    };
    let mut i: usize = 0;
    while i < full
        invariant
            n == msg@.len(),
            full == n / 8,
            i <= full,
            s == spec_lanes_after(k0, k1, msg@, i as int),
        decreases full - i,
    {
        let base: usize = 8 * i;
        let w = le64(
            msg[base],
            msg[base + 1],
            msg[base + 2],
            msg[base + 3],
            msg[base + 4],
            msg[base + 5],
            msg[base + 6],
            msg[base + 7],
        );
        assert(w == spec_word(msg@, i as int));
        s = absorb(s, w);
        i = i + 1;
    }
    let rem: usize = n % 8;
    let base: usize = 8 * full;
    let tail: u64 = if rem == 0 {
        0
    } else if rem == 1 {
        msg[base] as u64
    } else if rem == 2 {
        (msg[base] as u64) | ((msg[base + 1] as u64) << 8)
    } else if rem == 3 {
        (msg[base] as u64) | ((msg[base + 1] as u64) << 8) | ((msg[base + 2] as u64) << 16)
    } else if rem == 4 {
        (msg[base] as u64) | ((msg[base + 1] as u64) << 8) | ((msg[base + 2] as u64) << 16) | ((
        msg[base + 3] as u64) << 24)
    } else if rem == 5 {
        (msg[base] as u64) | ((msg[base + 1] as u64) << 8) | ((msg[base + 2] as u64) << 16) | ((
        msg[base + 3] as u64) << 24) | ((msg[base + 4] as u64) << 32)
    } else if rem == 6 {
        (msg[base] as u64) | ((msg[base + 1] as u64) << 8) | ((msg[base + 2] as u64) << 16) | ((
        msg[base + 3] as u64) << 24) | ((msg[base + 4] as u64) << 32) | ((msg[base + 5] as u64)
            << 40)
    } else {
        (msg[base] as u64) | ((msg[base + 1] as u64) << 8) | ((msg[base + 2] as u64) << 16) | ((
        msg[base + 3] as u64) << 24) | ((msg[base + 4] as u64) << 32) | ((msg[base + 5] as u64)
            << 40) | ((msg[base + 6] as u64) << 48)
    };
    assert(tail == spec_tail(msg@));
    let last: u64 = ((n as u64) % 256) << 56 | tail;
    assert(last == spec_last_word(msg@));
    let s = absorb(s, last);
    let t = round(round(round(round(Lanes { v0: s.v0, v1: s.v1, v2: s.v2 ^ 0xff, v3: s.v3 }))));
    t.v0 ^ t.v1 ^ t.v2 ^ t.v3
}

fn le64(b0: u8, b1: u8, b2: u8, b3: u8, b4: u8, b5: u8, b6: u8, b7: u8) -> (w: u64)
    ensures
        w == spec_le64(b0, b1, b2, b3, b4, b5, b6, b7),
{
    (b0 as u64) | ((b1 as u64) << 8) | ((b2 as u64) << 16) | ((b3 as u64) << 24) | ((b4 as u64)
        << 32) | ((b5 as u64) << 40) | ((b6 as u64) << 48) | ((b7 as u64) << 56)
}

/// The four little-endian bytes of one character's code point.
pub open spec fn spec_char_bytes(c: char) -> Seq<u8> {
    let u = c as u32;
    seq![
        (u & 0xff) as u8,
        ((u >> 8) & 0xff) as u8,
        ((u >> 16) & 0xff) as u8,
        ((u >> 24) & 0xff) as u8,
    ]
}

/// The message bytes of a character sequence: four bytes per character,
/// in order.
pub open spec fn spec_chars_bytes(s: Seq<char>) -> Seq<u8>
    decreases s.len(),
{
    if s.len() == 0 {
        Seq::empty()
    } else {
        spec_char_bytes(s[0]) + spec_chars_bytes(s.drop_first())
    }
}

/// The message bytes of a concatenation are the concatenated message
/// bytes.
pub proof fn lemma_chars_bytes_concat(a: Seq<char>, b: Seq<char>)
    ensures
        spec_chars_bytes(a + b) == spec_chars_bytes(a) + spec_chars_bytes(b),
    decreases a.len(),
{
    if a.len() == 0 {
        assert(a + b =~= b);
        assert(spec_chars_bytes(a) + spec_chars_bytes(b) =~= spec_chars_bytes(b));
    } else {
        assert((a + b).drop_first() =~= a.drop_first() + b);
        lemma_chars_bytes_concat(a.drop_first(), b);
        assert(spec_char_bytes(a[0]) + (spec_chars_bytes(a.drop_first()) + spec_chars_bytes(b))
            =~= (spec_char_bytes(a[0]) + spec_chars_bytes(a.drop_first())) + spec_chars_bytes(b));
    }
}

/// Growing the character sequence by one grows the message by that
/// character's four bytes.
pub proof fn lemma_chars_bytes_push(s: Seq<char>, i: int)
    requires
        0 <= i < s.len(),
    ensures
        spec_chars_bytes(s.take(i + 1)) == spec_chars_bytes(s.take(i)) + spec_char_bytes(s[i]),
{
    assert(s.take(i + 1) =~= s.take(i) + seq![s[i]]);
    lemma_chars_bytes_concat(s.take(i), seq![s[i]]);
    assert(seq![s[i]].drop_first() =~= Seq::<char>::empty());
    assert(spec_chars_bytes(Seq::<char>::empty()) == Seq::<u8>::empty());
    assert(spec_char_bytes(s[i]) + Seq::<u8>::empty() =~= spec_char_bytes(s[i]));
    assert(spec_chars_bytes(seq![s[i]]) == spec_char_bytes(s[i]) + spec_chars_bytes(
        seq![s[i]].drop_first(),
    ));
}

/// Append the four message bytes of one character.
fn append_char_bytes(out: &mut Vec<u8>, c: char)
    ensures
        final(out)@ == old(out)@ + spec_char_bytes(c),
{
    let u = c as u32;
    assert((u & 0xff) < 256 && ((u >> 8) & 0xff) < 256 && ((u >> 16) & 0xff) < 256 && ((u >> 24)
        & 0xff) < 256) by (bit_vector);
    out.push((u & 0xff) as u8);
    out.push(((u >> 8) & 0xff) as u8);
    out.push(((u >> 16) & 0xff) as u8);
    out.push(((u >> 24) & 0xff) as u8);
    assert(out@ =~= old(out)@ + spec_char_bytes(c));
}

/// Append the message bytes of every character of `s`.
fn append_str_bytes(out: &mut Vec<u8>, s: &str)
    ensures
        final(out)@ == old(out)@ + spec_chars_bytes(s@),
{
    let len = s.unicode_len();
    let mut i: usize = 0;
    while i < len
        invariant
            len == s@.len(),
            i <= len,
            out@ == old(out)@ + spec_chars_bytes(s@.take(i as int)),
        decreases len - i,
    {
        let c = s.get_char(i);
        append_char_bytes(out, c);
        proof {
            lemma_chars_bytes_push(s@, i as int);
        }
        i = i + 1;
    }
    assert(s@.take(len as int) =~= s@);
}

/// The message that resolution mixes for a name: the name's characters,
/// then the salt's.
pub open spec fn spec_mix_message(name: Seq<char>) -> Seq<u8> {
    spec_chars_bytes(name) + spec_chars_bytes(spec_salt())
}

/// The 64-bit mix of a name: SipHash-2-4, under the fixed library key, of
/// the name followed by the fixed salt.  A pure function of the name's
/// characters, so resolution never depends on the process, the machine or
/// the time.
pub open spec fn spec_mix(name: Seq<char>) -> u64 {
    spec_sip24(KEY0, KEY1, spec_mix_message(name))
}

/// The 64-bit mix of `name` and the library salt.
pub fn mix(name: &str) -> (h: u64)
    ensures
        h == spec_mix(name@),
{
    let mut m: Vec<u8> = Vec::new();
    append_str_bytes(&mut m, name);
    append_str_bytes(&mut m, salt());
    sip24(KEY0, KEY1, m.as_slice())
}

} // verus!
