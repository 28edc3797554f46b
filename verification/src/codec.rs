//! Big-endian encoding of the integers that travel in register payloads.
//!
//! Every multi-byte register of the chip family is transmitted most
//! significant byte first. The spec functions here are the wire format; the
//! executable functions compute it, and the lemmas show that encoding and
//! decoding are inverse to each other for every width.
use vstd::prelude::*;

verus! {

/// The wire bytes of an 8-bit value.
pub open spec fn be8(x: u8) -> Seq<u8> {
    seq![x]
}

/// The value of one wire byte.
pub open spec fn from_be8(s: Seq<u8>) -> u8 {
    s[0]
}

/// The wire bytes of a 16-bit value, most significant first.
pub open spec fn be16(x: u16) -> Seq<u8> {
    seq![(x >> 8) as u8, x as u8]
}

/// The 16-bit value of two wire bytes.
pub open spec fn from_be16(s: Seq<u8>) -> u16 {
    ((s[0] as u16) << 8) | (s[1] as u16)
}

/// The wire bytes of a 32-bit value, most significant first.
pub open spec fn be32(x: u32) -> Seq<u8> {
    seq![(x >> 24) as u8, (x >> 16) as u8, (x >> 8) as u8, x as u8]
}

/// The 32-bit value of four wire bytes.
pub open spec fn from_be32(s: Seq<u8>) -> u32 {
    ((s[0] as u32) << 24) | ((s[1] as u32) << 16) | ((s[2] as u32) << 8) | (s[3] as u32)
}

/// The wire bytes of a 64-bit value, most significant first.
pub open spec fn be64(x: u64) -> Seq<u8> {
    seq![
        (x >> 56) as u8,
        (x >> 48) as u8,
        (x >> 40) as u8,
        (x >> 32) as u8,
        (x >> 24) as u8,
        (x >> 16) as u8,
        (x >> 8) as u8,
        x as u8,
    ]
}

/// The 64-bit value of eight wire bytes.
pub open spec fn from_be64(s: Seq<u8>) -> u64 {
    ((s[0] as u64) << 56) | ((s[1] as u64) << 48) | ((s[2] as u64) << 40) | ((s[3] as u64) << 32)
        | ((s[4] as u64) << 24) | ((s[5] as u64) << 16) | ((s[6] as u64) << 8) | (s[7] as u64)
}

/// Encodes a 16-bit value for the wire.
pub fn u16_to_be(x: u16) -> (r: [u8; 2])
    ensures
        r@ == be16(x),
{
    let r: [u8; 2] = [(x >> 8) as u8, x as u8];
    assert(r@ =~= be16(x));
    r
}

/// Decodes two wire bytes.
pub fn u16_from_be(b: [u8; 2]) -> (x: u16)
    ensures
        x == from_be16(b@),
{
    ((b[0] as u16) << 8) | (b[1] as u16)
}

/// Encodes a 32-bit value for the wire.
pub fn u32_to_be(x: u32) -> (r: [u8; 4])
    ensures
        r@ == be32(x),
{
    let r: [u8; 4] = [(x >> 24) as u8, (x >> 16) as u8, (x >> 8) as u8, x as u8];
    assert(r@ =~= be32(x));
    r
}

/// Decodes four wire bytes.
pub fn u32_from_be(b: [u8; 4]) -> (x: u32)
    ensures
        x == from_be32(b@),
{
    ((b[0] as u32) << 24) | ((b[1] as u32) << 16) | ((b[2] as u32) << 8) | (b[3] as u32)
}

/// Encodes a 64-bit value for the wire.
pub fn u64_to_be(x: u64) -> (r: [u8; 8])
    ensures
        r@ == be64(x),
{
    let r: [u8; 8] = [
        (x >> 56) as u8,
        (x >> 48) as u8,
        (x >> 40) as u8,
        (x >> 32) as u8,
        (x >> 24) as u8,
        (x >> 16) as u8,
        (x >> 8) as u8,
        x as u8,
    ];
    assert(r@ =~= be64(x));
    r
}

/// Decodes eight wire bytes.
pub fn u64_from_be(b: [u8; 8]) -> (x: u64)
    ensures
        x == from_be64(b@),
{
    ((b[0] as u64) << 56) | ((b[1] as u64) << 48) | ((b[2] as u64) << 40) | ((b[3] as u64) << 32)
        | ((b[4] as u64) << 24) | ((b[5] as u64) << 16) | ((b[6] as u64) << 8) | (b[7] as u64)
}

/// Decoding the encoding of an 8-bit value gives the value back.
pub proof fn lemma_be8_round_trip(x: u8)
    ensures
        be8(x).len() == 1,
        from_be8(be8(x)) == x,
{
}

/// Decoding the encoding of a 16-bit value gives the value back.
pub proof fn lemma_be16_round_trip(x: u16)
    ensures
        be16(x).len() == 2,
        from_be16(be16(x)) == x,
{
    assert((((x >> 8) as u8 as u16) << 8) | (x as u8 as u16) == x) by (bit_vector);
}

/// Two wire bytes are the encoding of the value they decode to, and of no
/// other.
pub proof fn lemma_be16_unique(s: Seq<u8>)
    requires
        s.len() == 2,
    ensures
        be16(from_be16(s)) == s,
{
    let a = s[0];
    let b = s[1];
    let x = ((a as u16) << 8) | (b as u16);
    assert((x >> 8) as u8 == a && x as u8 == b) by (bit_vector)
        requires
            x == ((a as u16) << 8) | (b as u16),
    ;
    assert(be16(from_be16(s)) =~= s);
}

/// Decoding the encoding of a 32-bit value gives the value back.
pub proof fn lemma_be32_round_trip(x: u32)
    ensures
        be32(x).len() == 4,
        from_be32(be32(x)) == x,
{
    assert((((x >> 24) as u8 as u32) << 24) | (((x >> 16) as u8 as u32) << 16) | (((x >> 8) as u8
        as u32) << 8) | (x as u8 as u32) == x) by (bit_vector);
}

/// Four wire bytes are the encoding of the value they decode to, and of no
/// other.
pub proof fn lemma_be32_unique(s: Seq<u8>)
    requires
        s.len() == 4,
    ensures
        be32(from_be32(s)) == s,
{
    let a = s[0];
    let b = s[1];
    let c = s[2];
    let d = s[3];
    let x = ((a as u32) << 24) | ((b as u32) << 16) | ((c as u32) << 8) | (d as u32);
    assert((x >> 24) as u8 == a && (x >> 16) as u8 == b && (x >> 8) as u8 == c && x as u8 == d)
        by (bit_vector)
        requires
            x == ((a as u32) << 24) | ((b as u32) << 16) | ((c as u32) << 8) | (d as u32),
    ;
    assert(be32(from_be32(s)) =~= s);
}

/// Decoding the encoding of a 64-bit value gives the value back.
pub proof fn lemma_be64_round_trip(x: u64)
    ensures
        be64(x).len() == 8,
        from_be64(be64(x)) == x,
{
    assert((((x >> 56) as u8 as u64) << 56) | (((x >> 48) as u8 as u64) << 48) | (((x >> 40) as u8
        as u64) << 40) | (((x >> 32) as u8 as u64) << 32) | (((x >> 24) as u8 as u64) << 24) | (((x
        >> 16) as u8 as u64) << 16) | (((x >> 8) as u8 as u64) << 8) | (x as u8 as u64) == x)
        by (bit_vector);
}

/// Eight wire bytes are the encoding of the value they decode to, and of no
/// other.
pub proof fn lemma_be64_unique(s: Seq<u8>)
    requires
        s.len() == 8,
    ensures
        be64(from_be64(s)) == s,
{
    let a = s[0];
    let b = s[1];
    let c = s[2];
    let d = s[3];
    let e = s[4];
    let f = s[5];
    let g = s[6];
    let h = s[7];
    let x = ((a as u64) << 56) | ((b as u64) << 48) | ((c as u64) << 40) | ((d as u64) << 32) | ((e
        as u64) << 24) | ((f as u64) << 16) | ((g as u64) << 8) | (h as u64);
    assert((x >> 56) as u8 == a && (x >> 48) as u8 == b && (x >> 40) as u8 == c && (x >> 32) as u8
        == d && (x >> 24) as u8 == e && (x >> 16) as u8 == f && (x >> 8) as u8 == g && x as u8 == h)
        by (bit_vector)
        requires
            x == ((a as u64) << 56) | ((b as u64) << 48) | ((c as u64) << 40) | ((d as u64) << 32)
                | ((e as u64) << 24) | ((f as u64) << 16) | ((g as u64) << 8) | (h as u64),
    ;
    assert(be64(from_be64(s)) =~= s);
}

/// Two values of one width have the same wire bytes only if they are the
/// same value: what a typed write sends, a typed read of that width turns
/// back into the value that was written.
pub proof fn lemma_wire_bytes_tell_values_apart(
    a: (u8, u8),
    b: (u16, u16),
    c: (u32, u32),
    d: (u64, u64),
)
    ensures
        be8(a.0) == be8(a.1) ==> a.0 == a.1,
        be16(b.0) == be16(b.1) ==> b.0 == b.1,
        be32(c.0) == be32(c.1) ==> c.0 == c.1,
        be64(d.0) == be64(d.1) ==> d.0 == d.1,
{
    lemma_be8_round_trip(a.0);
    lemma_be8_round_trip(a.1);
    lemma_be16_round_trip(b.0);
    lemma_be16_round_trip(b.1);
    lemma_be32_round_trip(c.0);
    lemma_be32_round_trip(c.1);
    lemma_be64_round_trip(d.0);
    lemma_be64_round_trip(d.1);
}

/// A signed value survives the trip through its unsigned bit pattern, for
/// each width: this is what makes the signed accessors lossless.
pub proof fn lemma_signed_round_trip(a: i8, b: i16, c: i32, d: i64)
    ensures
        a as u8 as i8 == a,
        b as u16 as i16 == b,
        c as u32 as i32 == c,
        d as u64 as i64 == d,
{
    assert(a as u8 as i8 == a) by (bit_vector);
    assert(b as u16 as i16 == b) by (bit_vector);
    assert(c as u32 as i32 == c) by (bit_vector);
    assert(d as u64 as i64 == d) by (bit_vector);
}

/// An unsigned value survives the trip through the signed type of its
/// width: reading a signed register loses no bit of what the chip sent.
pub proof fn lemma_bit_pattern_kept(a: u8, b: u16, c: u32, d: u64)
    ensures
        a as i8 as u8 == a,
        b as i16 as u16 == b,
        c as i32 as u32 == c,
        d as i64 as u64 == d,
{
    assert(a as i8 as u8 == a) by (bit_vector);
    assert(b as i16 as u16 == b) by (bit_vector);
    assert(c as i32 as u32 == c) by (bit_vector);
    assert(d as i64 as u64 == d) by (bit_vector);
}

} // verus!
