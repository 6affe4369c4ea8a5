//! Small arithmetic helpers shared by the subsystems: powers of two for
//! shift-style register fields and single-bit reads of bytes, all phrased
//! over plain division and remainder so contracts stay in linear arithmetic.

use vstd::prelude::*;

verus! {

/// 2^n for exponents 0..=15.
pub open spec fn spec_pow2(n: int) -> int
    decreases n,
{
    if n <= 0 {
        1
    } else {
        2 * spec_pow2(n - 1)
    }
}

/// 2^n as a u16, for exponents 0..=15.
pub fn pow2_u16(n: u8) -> (r: u16)
    requires
        n < 16,
    ensures
        r == spec_pow2(n as int),
{
    proof {
        reveal_with_fuel(spec_pow2, 16);
    }
    if n == 0 {
        1
    } else if n == 1 {
        2
    } else if n == 2 {
        4
    } else if n == 3 {
        8
    } else if n == 4 {
        16
    } else if n == 5 {
        32
    } else if n == 6 {
        64
    } else if n == 7 {
        128
    } else if n == 8 {
        256
    } else if n == 9 {
        512
    } else if n == 10 {
        1024
    } else if n == 11 {
        2048
    } else if n == 12 {
        4096
    } else if n == 13 {
        8192
    } else if n == 14 {
        16384
    } else {
        32768
    }
}

/// Powers of two are positive.
pub proof fn lemma_pow2_pos(n: int)
    ensures
        spec_pow2(n) >= 1,
    decreases n,
{
    if n > 0 {
        lemma_pow2_pos(n - 1);
    }
}

/// Dividing a non-negative value by a positive one never grows it.
pub proof fn lemma_div_le(x: int, d: int)
    requires
        x >= 0,
        d >= 1,
    ensures
        0 <= x / d <= x,
{
    assert(0 <= x / d <= x) by (nonlinear_arith)
        requires
            x >= 0,
            d >= 1,
    ;
}

/// Bit `n` of a byte, read as the parity of `v / 2^n`.
pub open spec fn spec_bit8(v: u8, n: int) -> bool {
    (v as int / spec_pow2(n)) % 2 == 1
}

/// Read one bit of a byte.
pub fn bit8(v: u8, n: u8) -> (r: bool)
    requires
        n < 8,
    ensures
        r == spec_bit8(v, n as int),
{
    proof {
        reveal_with_fuel(spec_pow2, 8);
    }
    if n == 0 {
        v % 2 == 1
    } else if n == 1 {
        v / 2 % 2 == 1
    } else if n == 2 {
        v / 4 % 2 == 1
    } else if n == 3 {
        v / 8 % 2 == 1
    } else if n == 4 {
        v / 16 % 2 == 1
    } else if n == 5 {
        v / 32 % 2 == 1
    } else if n == 6 {
        v / 64 % 2 == 1
    } else {
        v / 128 % 2 == 1
    }
}

/// A byte with bit `n` forced set.
pub open spec fn spec_set_bit8(v: u8, n: int) -> u8 {
    if spec_bit8(v, n) {
        v
    } else {
        (v + spec_pow2(n)) as u8
    }
}

/// A byte with bit `n` forced clear.
pub open spec fn spec_clear_bit8(v: u8, n: int) -> u8 {
    if spec_bit8(v, n) {
        (v - spec_pow2(n)) as u8
    } else {
        v
    }
}

/// Set one bit of a byte.
pub fn set_bit8(v: u8, n: u8) -> (r: u8)
    requires
        n < 8,
    ensures
        r == spec_set_bit8(v, n as int),
{
    proof {
        reveal_with_fuel(spec_pow2, 8);
    }
    let mask = pow2_u16(n) as u8;
    if bit8(v, n) {
        v
    } else {
        proof {
            lemma_bit_clear_bound(v, n as int);
        }
        v + mask
    }
}

/// Clear one bit of a byte.
pub fn clear_bit8(v: u8, n: u8) -> (r: u8)
    requires
        n < 8,
    ensures
        r == spec_clear_bit8(v, n as int),
{
    proof {
        reveal_with_fuel(spec_pow2, 8);
    }
    let mask = pow2_u16(n) as u8;
    if bit8(v, n) {
        proof {
            lemma_bit_set_bound(v, n as int);
        }
        v - mask
    } else {
        v
    }
}

/// When bit `n` of `v` is clear, adding 2^n stays a byte.
proof fn lemma_bit_clear_bound(v: u8, n: int)
    requires
        0 <= n < 8,
        !spec_bit8(v, n),
    ensures
        v + spec_pow2(n) <= 255,
{
    reveal_with_fuel(spec_pow2, 8);
    let p = spec_pow2(n);
    assert(p == 1 || p == 2 || p == 4 || p == 8 || p == 16 || p == 32 || p == 64 || p == 128);
    assert(v + p <= 255) by (nonlinear_arith)
        requires
            (v as int / p) % 2 == 0,
            p == 1 || p == 2 || p == 4 || p == 8 || p == 16 || p == 32 || p == 64 || p == 128,
            v <= 255,
    ;
}

/// When bit `n` of `v` is set, 2^n can be subtracted.
proof fn lemma_bit_set_bound(v: u8, n: int)
    requires
        0 <= n < 8,
        spec_bit8(v, n),
    ensures
        v >= spec_pow2(n),
{
    reveal_with_fuel(spec_pow2, 8);
    let p = spec_pow2(n);
    assert(p == 1 || p == 2 || p == 4 || p == 8 || p == 16 || p == 32 || p == 64 || p == 128);
    assert(v >= p) by (nonlinear_arith)
        requires
            (v as int / p) % 2 == 1,
            p >= 1,
            v >= 0,
    ;
}

} // verus!
