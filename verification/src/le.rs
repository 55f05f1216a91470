//! Little-endian encoding of the fixed-width integers stored in account data.

use vstd::prelude::*;

verus! {

/// The value of eight little-endian bytes, as an unsigned 64-bit integer.
pub open spec fn decode_u64(b: Seq<u8>) -> int
    recommends
        b.len() == 8,
{
    b[0] + 256 * (b[1] + 256 * (b[2] + 256 * (b[3] + 256 * (b[4] + 256 * (b[5] + 256 * (b[6]
        + 256 * b[7]))))))
}

/// The `i`-th little-endian byte of `x`.
pub open spec fn byte_of(x: int, i: nat) -> u8
    decreases i,
{
    if i == 0 {
        (x % 256) as u8
    } else {
        byte_of(x / 256, (i - 1) as nat)
    }
}

/// The eight little-endian bytes of `x`.
pub open spec fn encode_u64(x: u64) -> Seq<u8> {
    seq![
        byte_of(x as int, 0),
        byte_of(x as int, 1),
        byte_of(x as int, 2),
        byte_of(x as int, 3),
        byte_of(x as int, 4),
        byte_of(x as int, 5),
        byte_of(x as int, 6),
        byte_of(x as int, 7),
    ]
}

/// The signed value of eight little-endian bytes in two's complement.
pub open spec fn decode_i64(b: Seq<u8>) -> int
    recommends
        b.len() == 8,
{
    let u: int = decode_u64(b);
    if u < 0x8000_0000_0000_0000 {
        u
    } else {
        u - 0x1_0000_0000_0000_0000
    }
}

/// The unsigned 64-bit pattern that stands for `t` in two's complement.
pub open spec fn twos_complement(t: i64) -> u64 {
    if t >= 0 {
        t as u64
    } else {
        (t + 0x1_0000_0000_0000_0000) as u64
    }
}

/// The eight little-endian two's-complement bytes of `t`.
pub open spec fn encode_i64(t: i64) -> Seq<u8> {
    encode_u64(twos_complement(t))
}

/// Decoding the encoding of a 64-bit value gives the value back.
pub proof fn lemma_decode_encode_u64(x: u64)
    ensures
        encode_u64(x).len() == 8,
        decode_u64(encode_u64(x)) == x,
{
    let q0: int = x as int;
    let q1: int = q0 / 256;
    let q2: int = q1 / 256;
    let q3: int = q2 / 256;
    let q4: int = q3 / 256;
    let q5: int = q4 / 256;
    let q6: int = q5 / 256;
    let q7: int = q6 / 256;
    reveal_with_fuel(byte_of, 9);
    assert(q7 < 256);
    let e = encode_u64(x);
    assert(e[0] == q0 % 256);
    assert(e[1] == q1 % 256);
    assert(e[2] == q2 % 256);
    assert(e[3] == q3 % 256);
    assert(e[4] == q4 % 256);
    assert(e[5] == q5 % 256);
    assert(e[6] == q6 % 256);
    assert(e[7] == q7 % 256);
}

/// Encoding the value of eight bytes gives the same bytes back.
pub proof fn lemma_encode_decode_u64(b: Seq<u8>)
    requires
        b.len() == 8,
    ensures
        0 <= decode_u64(b) <= u64::MAX,
        encode_u64(decode_u64(b) as u64) == b,
{
    let x: int = decode_u64(b);
    let q7: int = b[7] as int;
    let q6: int = b[6] + 256 * q7;
    let q5: int = b[5] + 256 * q6;
    let q4: int = b[4] + 256 * q5;
    let q3: int = b[3] + 256 * q4;
    let q2: int = b[2] + 256 * q3;
    let q1: int = b[1] + 256 * q2;
    let q0: int = b[0] + 256 * q1;
    assert(q0 == x);
    assert(q0 / 256 == q1 && q0 % 256 == b[0]);
    assert(q1 / 256 == q2 && q1 % 256 == b[1]);
    assert(q2 / 256 == q3 && q2 % 256 == b[2]);
    assert(q3 / 256 == q4 && q3 % 256 == b[3]);
    assert(q4 / 256 == q5 && q4 % 256 == b[4]);
    assert(q5 / 256 == q6 && q5 % 256 == b[5]);
    assert(q6 / 256 == q7 && q6 % 256 == b[6]);
    assert(q7 % 256 == b[7]);
    reveal_with_fuel(byte_of, 9);
    assert(encode_u64(x as u64) =~= b);
}

/// Decoding the two's-complement encoding of a signed value gives the value back.
pub proof fn lemma_decode_encode_i64(t: i64)
    ensures
        encode_i64(t).len() == 8,
        decode_i64(encode_i64(t)) == t,
{
    lemma_decode_encode_u64(twos_complement(t));
}

/// Encoding the signed value of eight bytes gives the same bytes back.
pub proof fn lemma_encode_decode_i64(b: Seq<u8>)
    requires
        b.len() == 8,
    ensures
        i64::MIN <= decode_i64(b) <= i64::MAX,
        encode_i64(decode_i64(b) as i64) == b,
{
    lemma_encode_decode_u64(b);
}

/// Reads eight little-endian bytes as an unsigned integer.
pub fn u64_from_le_bytes(b: [u8; 8]) -> (r: u64)
    ensures
        r == decode_u64(b@),
{
    let v7: u64 = b[7] as u64;
    let v6: u64 = b[6] as u64 + 256 * v7;
    let v5: u64 = b[5] as u64 + 256 * v6;
    let v4: u64 = b[4] as u64 + 256 * v5;
    let v3: u64 = b[3] as u64 + 256 * v4;
    let v2: u64 = b[2] as u64 + 256 * v3;
    let v1: u64 = b[1] as u64 + 256 * v2;
    b[0] as u64 + 256 * v1
}

/// Writes an unsigned integer as eight little-endian bytes.
pub fn u64_to_le_bytes(x: u64) -> (r: [u8; 8])
    ensures
        r@ == encode_u64(x),
{
    let q1: u64 = x / 256;
    let q2: u64 = q1 / 256;
    let q3: u64 = q2 / 256;
    let q4: u64 = q3 / 256;
    let q5: u64 = q4 / 256;
    let q6: u64 = q5 / 256;
    let q7: u64 = q6 / 256;
    let r = [
        (x % 256) as u8,
        (q1 % 256) as u8,
        (q2 % 256) as u8,
        (q3 % 256) as u8,
        (q4 % 256) as u8,
        (q5 % 256) as u8,
        (q6 % 256) as u8,
        (q7 % 256) as u8,
    ];
    proof {
        reveal_with_fuel(byte_of, 9);
        assert(r@ =~= encode_u64(x));
    }
    r
}

/// Reads eight little-endian two's-complement bytes as a signed integer.
pub fn i64_from_le_bytes(b: [u8; 8]) -> (r: i64)
    ensures
        r == decode_i64(b@),
{
    proof {
        lemma_encode_decode_u64(b@);
    }
    let u: u64 = u64_from_le_bytes(b);
    if u < 0x8000_0000_0000_0000 {
        u as i64
    } else {
        ((u - 0x8000_0000_0000_0000) as i64) - i64::MAX - 1
    }
}

/// Writes a signed integer as eight little-endian two's-complement bytes.
pub fn i64_to_le_bytes(t: i64) -> (r: [u8; 8])
    ensures
        r@ == encode_i64(t),
{
    let u: u64 = if t >= 0 {
        t as u64
    } else {
        ((t + i64::MAX + 1) as u64) + 0x8000_0000_0000_0000
    };
    u64_to_le_bytes(u)
}

} // verus!
