//! The standard base64 alphabet with padding, stated as spec functions, and
//! the call into the `base64` crate that performs the encoding.
use vstd::prelude::*;

verus! {

/// The character that stands for a six-bit value: `A`-`Z`, `a`-`z`, `0`-`9`,
/// `+` and `/`, in that order.
pub open spec fn sextet_char(v: u8) -> char {
    if v < 26 {
        (v + 65) as u8 as char
    } else if v < 52 {
        (v + 71) as u8 as char
    } else if v < 62 {
        (v - 4) as u8 as char
    } else if v == 62 {
        '+'
    } else {
        '/'
    }
}

/// The six-bit value of a character of the alphabet.
pub open spec fn char_sextet(c: char) -> u8 {
    let n = c as u32;
    if 65 <= n && n <= 90 {
        (n - 65) as u8
    } else if 97 <= n && n <= 122 {
        (n - 71) as u8
    } else if 48 <= n && n <= 57 {
        (n + 4) as u8
    } else if c == '+' {
        62
    } else {
        63
    }
}

/// Standard base64 with `=` padding: each group of three bytes becomes four
/// characters; a final group of one or two bytes is padded to four.
pub open spec fn base64_text(b: Seq<u8>) -> Seq<char>
    decreases b.len(),
{
    if b.len() == 0 {
        seq![]
    } else if b.len() == 1 {
        seq![sextet_char(b[0] >> 2), sextet_char((b[0] & 3) << 4), '=', '=']
    } else if b.len() == 2 {
        seq![
            sextet_char(b[0] >> 2),
            sextet_char(((b[0] & 3) << 4) | (b[1] >> 4)),
            sextet_char((b[1] & 15) << 2),
            '=',
        ]
    } else {
        seq![
            sextet_char(b[0] >> 2),
            sextet_char(((b[0] & 3) << 4) | (b[1] >> 4)),
            sextet_char(((b[1] & 15) << 2) | (b[2] >> 6)),
            sextet_char(b[2] & 63),
        ] + base64_text(b.skip(3))
    }
}

/// Reads base64 text back into bytes, four characters at a time; a group
/// whose third or fourth character is `=` is the last one.
pub open spec fn base64_bytes(t: Seq<char>) -> Seq<u8>
    decreases t.len(),
{
    if t.len() < 4 {
        seq![]
    } else {
        let v0 = char_sextet(t[0]);
        let v1 = char_sextet(t[1]);
        let v2 = char_sextet(t[2]);
        let v3 = char_sextet(t[3]);
        let x0 = (v0 << 2) | (v1 >> 4);
        let x1 = (v1 << 4) | (v2 >> 2);
        let x2 = (v2 << 6) | v3;
        if t[2] == '=' {
            seq![x0]
        } else if t[3] == '=' {
            seq![x0, x1]
        } else {
            seq![x0, x1, x2] + base64_bytes(t.skip(4))
        }
    }
}

proof fn lemma_sextet_inverse(v: u8)
    requires
        v < 64,
    ensures
        char_sextet(sextet_char(v)) == v,
        sextet_char(v) != '=',
{
}

proof fn lemma_split_bits(b0: u8, b1: u8, b2: u8)
    by (bit_vector)
    ensures
        b0 >> 2 < 64,
        ((b0 & 3) << 4) < 64,
        (((b0 & 3) << 4) | (b1 >> 4)) < 64,
        ((b1 & 15) << 2) < 64,
        (((b1 & 15) << 2) | (b2 >> 6)) < 64,
        b2 & 63 < 64,
        ((b0 >> 2) << 2) | (((b0 & 3) << 4) >> 4) == b0,
        ((b0 >> 2) << 2) | ((((b0 & 3) << 4) | (b1 >> 4)) >> 4) == b0,
        ((((b0 & 3) << 4) | (b1 >> 4)) << 4) | (((b1 & 15) << 2) >> 2) == b1,
        ((((b0 & 3) << 4) | (b1 >> 4)) << 4) | ((((b1 & 15) << 2) | (b2 >> 6)) >> 2) == b1,
        ((((b1 & 15) << 2) | (b2 >> 6)) << 6) | (b2 & 63) == b2,
{
}

/// Decoding the base64 text of a byte sequence gives back that sequence.
pub proof fn lemma_base64_round_trip(b: Seq<u8>)
    ensures
        base64_bytes(base64_text(b)) == b,
    decreases b.len(),
{
    let t = base64_text(b);
    if b.len() == 0 {
    } else if b.len() == 1 {
        lemma_split_bits(b[0], 0, 0);
        lemma_sextet_inverse(b[0] >> 2);
        lemma_sextet_inverse((b[0] & 3) << 4);
        assert(base64_bytes(t) =~= b);
    } else if b.len() == 2 {
        lemma_split_bits(b[0], b[1], 0);
        lemma_sextet_inverse(b[0] >> 2);
        lemma_sextet_inverse(((b[0] & 3) << 4) | (b[1] >> 4));
        lemma_sextet_inverse((b[1] & 15) << 2);
        assert(base64_bytes(t) =~= b);
    } else {
        lemma_split_bits(b[0], b[1], b[2]);
        lemma_sextet_inverse(b[0] >> 2);
        lemma_sextet_inverse(((b[0] & 3) << 4) | (b[1] >> 4));
        lemma_sextet_inverse(((b[1] & 15) << 2) | (b[2] >> 6));
        lemma_sextet_inverse(b[2] & 63);
        lemma_base64_round_trip(b.skip(3));
        assert(t.skip(4) =~= base64_text(b.skip(3)));
        assert(base64_bytes(t) =~= b);
    }
}

/// Different byte sequences have different base64 texts.
pub proof fn lemma_base64_injective(a: Seq<u8>, b: Seq<u8>)
    requires
        base64_text(a) == base64_text(b),
    ensures
        a == b,
{
    lemma_base64_round_trip(a);
    lemma_base64_round_trip(b);
}

/// Relies on `base64::encode`, which encodes with the standard alphabet and
/// `=` padding.
#[verifier::external_body]
pub(crate) fn base64_standard(bytes: &[u8]) -> (r: String)
    ensures
        r@ == base64_text(bytes@),
{
    base64::encode(bytes)
}

} // verus!
