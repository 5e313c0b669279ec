use vstd::prelude::*;

verus! {

/// Truncated (round-toward-zero) quotient, the meaning of Rust's `/` on
/// signed integers when the divisor is positive.
pub open spec fn tdiv(a: int, b: int) -> int
    recommends
        b > 0,
{
    if a >= 0 {
        a / b
    } else {
        -((-a) / b)
    }
}

/// Quotient rounded toward negative infinity, the meaning of an arithmetic
/// right shift when the divisor is the corresponding power of two.  For a
/// positive divisor this agrees with the mathematical (Euclidean) `/`.
pub fn div_floor(a: i32, b: i32) -> (r: i32)
    requires
        -2000000000 <= a <= 2000000000,
        0 < b <= 2000000000,
    ensures
        r == (a as int) / (b as int),
{
    if a >= 0 {
        a / b
    } else if a % b == 0 {
        proof {
            let ai = a as int;
            let bi = b as int;
            assert((-ai) % bi == 0 ==> -((-ai) / bi) == ai / bi) by (nonlinear_arith)
                requires
                    ai < 0,
                    bi > 0,
            ;
        }
        a / b
    } else {
        proof {
            let ai = a as int;
            let bi = b as int;
            assert((-ai) % bi != 0 ==> -((-ai) / bi) - 1 == ai / bi) by (nonlinear_arith)
                requires
                    ai < 0,
                    bi > 0,
            ;
        }
        a / b - 1
    }
}

/// True when bit `k` of `b` is set.
pub open spec fn bit_of(b: u8, k: u8) -> bool {
    (b >> k) & 1 == 1
}

/// Runtime test for one bit of a byte, as a serial transport shifts it out.
pub fn bit_is_set(b: u8, k: u8) -> (r: bool)
    requires
        k < 8,
    ensures
        r == bit_of(b, k),
{
    (b >> k) & 1 == 1
}

/// A byte is the weighted sum of its eight bits.
pub proof fn lemma_byte_from_bits(b: u8)
    ensures
        b == (if bit_of(b, 0) { 1int } else { 0int }) + (if bit_of(b, 1) { 2int } else { 0int })
            + (if bit_of(b, 2) { 4int } else { 0int }) + (if bit_of(b, 3) { 8int } else { 0int })
            + (if bit_of(b, 4) { 16int } else { 0int }) + (if bit_of(b, 5) {
            32int
        } else {
            0int
        }) + (if bit_of(b, 6) { 64int } else { 0int }) + (if bit_of(b, 7) { 128int } else { 0int }),
{
    assert(b == (if (b >> 0u8) & 1 == 1 { 1u8 } else { 0u8 }) + (if (b >> 1u8) & 1 == 1 {
        2u8
    } else {
        0u8
    }) + (if (b >> 2u8) & 1 == 1 { 4u8 } else { 0u8 }) + (if (b >> 3u8) & 1 == 1 {
        8u8
    } else {
        0u8
    }) + (if (b >> 4u8) & 1 == 1 { 16u8 } else { 0u8 }) + (if (b >> 5u8) & 1 == 1 {
        32u8
    } else {
        0u8
    }) + (if (b >> 6u8) & 1 == 1 { 64u8 } else { 0u8 }) + (if (b >> 7u8) & 1 == 1 {
        128u8
    } else {
        0u8
    })) by (bit_vector);
}

/// In a weighted sum of eight single-bit weights, each weight is recovered
/// by its bit position.
pub proof fn lemma_pack_bits(v0: u8, v1: u8, v2: u8, v3: u8, v4: u8, v5: u8, v6: u8, v7: u8)
    requires
        v0 <= 1,
        v1 <= 1,
        v2 <= 1,
        v3 <= 1,
        v4 <= 1,
        v5 <= 1,
        v6 <= 1,
        v7 <= 1,
    ensures
        bit_of((v0 + 2 * v1 + 4 * v2 + 8 * v3 + 16 * v4 + 32 * v5 + 64 * v6 + 128 * v7) as u8, 0)
            == (v0 == 1),
        bit_of((v0 + 2 * v1 + 4 * v2 + 8 * v3 + 16 * v4 + 32 * v5 + 64 * v6 + 128 * v7) as u8, 1)
            == (v1 == 1),
        bit_of((v0 + 2 * v1 + 4 * v2 + 8 * v3 + 16 * v4 + 32 * v5 + 64 * v6 + 128 * v7) as u8, 2)
            == (v2 == 1),
        bit_of((v0 + 2 * v1 + 4 * v2 + 8 * v3 + 16 * v4 + 32 * v5 + 64 * v6 + 128 * v7) as u8, 3)
            == (v3 == 1),
        bit_of((v0 + 2 * v1 + 4 * v2 + 8 * v3 + 16 * v4 + 32 * v5 + 64 * v6 + 128 * v7) as u8, 4)
            == (v4 == 1),
        bit_of((v0 + 2 * v1 + 4 * v2 + 8 * v3 + 16 * v4 + 32 * v5 + 64 * v6 + 128 * v7) as u8, 5)
            == (v5 == 1),
        bit_of((v0 + 2 * v1 + 4 * v2 + 8 * v3 + 16 * v4 + 32 * v5 + 64 * v6 + 128 * v7) as u8, 6)
            == (v6 == 1),
        bit_of((v0 + 2 * v1 + 4 * v2 + 8 * v3 + 16 * v4 + 32 * v5 + 64 * v6 + 128 * v7) as u8, 7)
            == (v7 == 1),
{
    let s: u8 = (v0 + 2 * v1 + 4 * v2 + 8 * v3 + 16 * v4 + 32 * v5 + 64 * v6 + 128 * v7) as u8;
    assert(v0 <= 1 && v1 <= 1 && v2 <= 1 && v3 <= 1 && v4 <= 1 && v5 <= 1 && v6 <= 1 && v7 <= 1
        && s == (v0 + 2 * v1 + 4 * v2 + 8 * v3 + 16 * v4 + 32 * v5 + 64 * v6 + 128 * v7) as u8
        ==> ((s >> 0u8) & 1 == 1) == (v0 == 1) && ((s >> 1u8) & 1 == 1) == (v1 == 1) && ((s
        >> 2u8) & 1 == 1) == (v2 == 1) && ((s >> 3u8) & 1 == 1) == (v3 == 1) && ((s >> 4u8) & 1
        == 1) == (v4 == 1) && ((s >> 5u8) & 1 == 1) == (v5 == 1) && ((s >> 6u8) & 1 == 1) == (v6
        == 1) && ((s >> 7u8) & 1 == 1) == (v7 == 1)) by (bit_vector);
}

} // verus!
