//! Standard Base64 (RFC 4648, standard alphabet, `=` padding) as a
//! specification, the call into the `base64` crate that produces it, and its
//! laws: its length, how it splits at whole groups, and that different bytes
//! never give the same text.
use vstd::prelude::*;
use base64::Engine;

verus! {

/// The character of a 6-bit value in the standard alphabet
/// `A-Z a-z 0-9 + /`.
pub open spec fn base64_char(v: u8) -> char {
    if v < 26 {
        ((v + 65) as u32) as char
    } else if v < 52 {
        ((v - 26 + 97) as u32) as char
    } else if v < 62 {
        ((v - 52 + 48) as u32) as char
    } else if v == 62 {
        '+'
    } else {
        '/'
    }
}

/// The four characters of a group of `count` bytes (1 to 3; missing bytes
/// are given as zero): four 6-bit values, the last ones replaced by `=` when
/// the group is short.
pub open spec fn base64_quad(b0: u8, b1: u8, b2: u8, count: nat) -> Seq<char> {
    seq![
        base64_char(b0 >> 2),
        base64_char(((b0 & 3) << 4) | (b1 >> 4)),
        if count >= 2 { base64_char(((b1 & 15) << 2) | (b2 >> 6)) } else { '=' },
        if count >= 3 { base64_char(b2 & 63) } else { '=' },
    ]
}

/// Standard Base64 text of a byte sequence, group of three bytes by group.
pub open spec fn base64_standard(bytes: Seq<u8>) -> Seq<char>
    decreases bytes.len(),
{
    if bytes.len() == 0 {
        Seq::empty()
    } else if bytes.len() == 1 {
        base64_quad(bytes[0], 0, 0, 1)
    } else if bytes.len() == 2 {
        base64_quad(bytes[0], bytes[1], 0, 2)
    } else {
        base64_quad(bytes[0], bytes[1], bytes[2], 3) + base64_standard(bytes.skip(3))
    }
}

/// Calls `Engine::encode` of `base64::engine::general_purpose::STANDARD`,
/// the RFC 4648 standard alphabet with `=` padding, which `base64_standard`
/// writes out.  `encode` panics when the padded length (four characters for
/// every started group of three bytes) does not fit in a `usize`, which
/// `requires` rules out.
#[verifier::external_body]
pub(crate) fn base64_encode(bytes: &[u8]) -> (text: String)
    requires
        4 * ((bytes@.len() + 2) / 3) <= usize::MAX,
    ensures
        text@ == base64_standard(bytes@),
{
    base64::engine::general_purpose::STANDARD.encode(bytes)
}

// ---------------------------------------------------------------------------
// Laws
// ---------------------------------------------------------------------------

/// The text has four characters for every started group of three bytes.
pub proof fn lemma_base64_len(bytes: Seq<u8>)
    ensures
        base64_standard(bytes).len() == 4 * ((bytes.len() + 2) / 3),
    decreases bytes.len(),
{
    if bytes.len() >= 3 {
        lemma_base64_len(bytes.skip(3));
    }
}

/// Encoding splits after any whole number of groups: when the first part's
/// length is a multiple of three, the text of the whole is the text of the
/// first part followed by that of the second.
pub proof fn lemma_base64_concat(a: Seq<u8>, b: Seq<u8>)
    requires
        a.len() % 3 == 0,
    ensures
        base64_standard(a + b) == base64_standard(a) + base64_standard(b),
    decreases a.len(),
{
    if a.len() == 0 {
        assert(a + b =~= b);
        assert(base64_standard(a) + base64_standard(b) =~= base64_standard(b));
    } else {
        lemma_base64_concat(a.skip(3), b);
        assert((a + b).skip(3) =~= a.skip(3) + b);
        assert((a + b)[0] == a[0] && (a + b)[1] == a[1] && (a + b)[2] == a[2]);
        let q = base64_quad(a[0], a[1], a[2], 3);
        assert(base64_standard(a + b) == q + base64_standard(a.skip(3) + b));
        assert(base64_standard(a) == q + base64_standard(a.skip(3)));
        assert(q + (base64_standard(a.skip(3)) + base64_standard(b)) =~= (q
            + base64_standard(a.skip(3))) + base64_standard(b));
    }
}

/// No alphabet character is the padding character.
proof fn lemma_char_not_pad(v: u8)
    ensures
        base64_char(v) != '=',
{
}

/// Different 6-bit values have different characters.
proof fn lemma_char_injective(v: u8, w: u8)
    requires
        v < 64,
        w < 64,
        base64_char(v) == base64_char(w),
    ensures
        v == w,
{
    assert(base64_char(v) as u32 == base64_char(w) as u32);
}

/// The 6-bit values of a group are below 64.
proof fn lemma_sextets_in_range(b0: u8, b1: u8, b2: u8)
    ensures
        b0 >> 2 < 64,
        ((b0 & 3) << 4) | (b1 >> 4) < 64,
        ((b1 & 15) << 2) | (b2 >> 6) < 64,
        b2 & 63 < 64,
{
    assert(b0 >> 2 < 64) by (bit_vector);
    assert(((b0 & 3) << 4) | (b1 >> 4) < 64) by (bit_vector);
    assert(((b1 & 15) << 2) | (b2 >> 6) < 64) by (bit_vector);
    assert(b2 & 63 < 64) by (bit_vector);
}

/// Two groups of the same size with the same characters hold the same bytes
/// (missing bytes count as zero).
proof fn lemma_quad_injective(a0: u8, a1: u8, a2: u8, b0: u8, b1: u8, b2: u8, count: nat)
    requires
        1 <= count <= 3,
        count < 3 ==> a2 == 0 && b2 == 0,
        count < 2 ==> a1 == 0 && b1 == 0,
        base64_quad(a0, a1, a2, count) == base64_quad(b0, b1, b2, count),
    ensures
        a0 == b0,
        a1 == b1,
        a2 == b2,
{
    let qa = base64_quad(a0, a1, a2, count);
    let qb = base64_quad(b0, b1, b2, count);
    lemma_sextets_in_range(a0, a1, a2);
    lemma_sextets_in_range(b0, b1, b2);
    assert(qa[0] == qb[0] && qa[1] == qb[1] && qa[2] == qb[2] && qa[3] == qb[3]);
    lemma_char_injective(a0 >> 2, b0 >> 2);
    lemma_char_injective(((a0 & 3) << 4) | (a1 >> 4), ((b0 & 3) << 4) | (b1 >> 4));
    if count >= 2 {
        lemma_char_injective(((a1 & 15) << 2) | (a2 >> 6), ((b1 & 15) << 2) | (b2 >> 6));
    }
    if count >= 3 {
        lemma_char_injective(a2 & 63, b2 & 63);
    }
    let two: bool = count >= 2;
    let three: bool = count >= 3;
    assert(a0 == b0 && a1 == b1 && a2 == b2) by (bit_vector)
        requires
            three ==> two,
            a0 >> 2 == b0 >> 2,
            ((a0 & 3) << 4) | (a1 >> 4) == ((b0 & 3) << 4) | (b1 >> 4),
            two ==> ((a1 & 15) << 2) | (a2 >> 6) == ((b1 & 15) << 2) | (b2 >> 6),
            three ==> a2 & 63 == b2 & 63,
            !three ==> a2 == 0 && b2 == 0,
            !two ==> a1 == 0 && b1 == 0,
    ;
}

/// The first group's size, read off the padding of its last two characters.
proof fn lemma_quad_padding(b0: u8, b1: u8, b2: u8, count: nat)
    ensures
        (base64_quad(b0, b1, b2, count)[2] == '=') == (count < 2),
        (base64_quad(b0, b1, b2, count)[3] == '=') == (count < 3),
{
    lemma_char_not_pad(((b1 & 15) << 2) | (b2 >> 6));
    lemma_char_not_pad(b2 & 63);
}

/// The first group of a non-empty text: its size is `min(len, 3)`, and the
/// text is that group followed by the text of the remaining bytes.
proof fn lemma_base64_first_group(bytes: Seq<u8>)
    requires
        bytes.len() > 0,
    ensures
        ({
            let count: nat = if bytes.len() >= 3 { 3 } else { bytes.len() };
            let b1 = if bytes.len() >= 2 { bytes[1] } else { 0u8 };
            let b2 = if bytes.len() >= 3 { bytes[2] } else { 0u8 };
            let q = base64_quad(bytes[0], b1, b2, count);
            &&& base64_standard(bytes).len() >= 4
            &&& base64_standard(bytes).take(4) == q
            &&& base64_standard(bytes).skip(4) == if bytes.len() >= 3 {
                base64_standard(bytes.skip(3))
            } else {
                Seq::<char>::empty()
            }
        }),
{
    let count: nat = if bytes.len() >= 3 { 3 } else { bytes.len() };
    let b1 = if bytes.len() >= 2 { bytes[1] } else { 0u8 };
    let b2 = if bytes.len() >= 3 { bytes[2] } else { 0u8 };
    let q = base64_quad(bytes[0], b1, b2, count);
    let t = base64_standard(bytes);
    if bytes.len() >= 3 {
        assert(t.take(4) =~= q);
        assert(t.skip(4) =~= base64_standard(bytes.skip(3)));
    } else {
        assert(t == q);
        assert(t.take(4) =~= q);
        assert(t.skip(4) =~= Seq::<char>::empty());
    }
}

/// Different bytes never have the same text.
pub proof fn lemma_base64_injective(a: Seq<u8>, b: Seq<u8>)
    requires
        base64_standard(a) == base64_standard(b),
    ensures
        a == b,
    decreases a.len(),
{
    lemma_base64_len(a);
    lemma_base64_len(b);
    if a.len() == 0 || b.len() == 0 {
        assert(a.len() == 0 && b.len() == 0);
        assert(a =~= b);
    } else {
        lemma_base64_first_group(a);
        lemma_base64_first_group(b);
        let ca: nat = if a.len() >= 3 { 3 } else { a.len() };
        let cb: nat = if b.len() >= 3 { 3 } else { b.len() };
        let a1 = if a.len() >= 2 { a[1] } else { 0u8 };
        let a2 = if a.len() >= 3 { a[2] } else { 0u8 };
        let b1 = if b.len() >= 2 { b[1] } else { 0u8 };
        let b2 = if b.len() >= 3 { b[2] } else { 0u8 };
        let qa = base64_quad(a[0], a1, a2, ca);
        let qb = base64_quad(b[0], b1, b2, cb);
        assert(qa == qb);
        lemma_quad_padding(a[0], a1, a2, ca);
        lemma_quad_padding(b[0], b1, b2, cb);
        assert(ca == cb);
        lemma_quad_injective(a[0], a1, a2, b[0], b1, b2, ca);
        if a.len() >= 3 {
            lemma_base64_injective(a.skip(3), b.skip(3));
            assert(a.len() == b.len());
            assert forall|i: int| 0 <= i < a.len() implies a[i] == b[i] by {
                if i >= 3 {
                    assert(a[i] == a.skip(3)[i - 3]);
                    assert(b[i] == b.skip(3)[i - 3]);
                }
            }
            assert(a =~= b);
        } else {
            assert(a.len() == b.len());
            assert(a[0] == b[0]);
            assert(a.len() == 2 ==> a[1] == b[1]);
            assert(a =~= b);
        }
    }
}

} // verus!
