//! The fixed narrowing-cast table, on little-endian byte images.
//!
//! Buffers store their elements as contiguous row-major little-endian bytes,
//! so every cast of the table is byte arithmetic: a 64-bit integer narrows to
//! its low four bytes, a boolean byte maps to 0 or 1, and a 16-bit float
//! widens bitwise to the 32-bit float with the same value.

use vstd::arithmetic::power2::{lemma2_to64, pow2};
use vstd::prelude::*;

verus! {

/// Narrow each 8-byte little-endian group to its low 4 bytes: the value
/// modulo 2^32, reinterpreted at the narrower width.
pub open spec fn narrowed64(b: Seq<u8>) -> Seq<u8> {
    Seq::new(b.len() / 8 * 4, |j: int| b[(j / 4) * 8 + (j % 4)])
}

/// Map each boolean storage byte to exactly 0 or 1.
pub open spec fn bool_bytes(b: Seq<u8>) -> Seq<u8> {
    Seq::new(b.len(), |i: int| if b[i] == 0 { 0u8 } else { 1u8 })
}

/// How many doublings a subnormal 16-bit float mantissa needs until its
/// leading bit reaches position 10.
pub open spec fn sub_shift(m: nat) -> nat
    decreases (if m < 1024 { (1024 - m) as nat } else { 0nat }),
{
    if m == 0 {
        0
    } else if m >= 1024 {
        0
    } else {
        1 + sub_shift(2 * m)
    }
}

/// The 32-bit float with the same value as the 16-bit float `h`, as its bit
/// image: the sign moves to bit 31, a normal exponent is rebiased by
/// 127 - 15, the mantissa gains 13 low zero bits; subnormals are normalized,
/// infinities and NaNs keep an all-ones exponent.
pub open spec fn f32_bits_of_f16(h: u16) -> u32 {
    let s = (h as int) / 32768;
    let e = ((h as int) / 1024) % 32;
    let m = (h as int) % 1024;
    if e == 0 && m == 0 {
        (s * 0x80000000) as u32
    } else if e == 0 {
        let t = sub_shift(m as nat);
        (s * 0x80000000 + (113 - t) * 0x800000 + ((m * pow2(t)) % 1024) * 8192) as u32
    } else if e == 31 {
        (s * 0x80000000 + 255 * 0x800000 + m * 8192) as u32
    } else {
        (s * 0x80000000 + (e + 112) * 0x800000 + m * 8192) as u32
    }
}

/// The little-endian 16-bit word starting at byte `2 * k`.
pub open spec fn word16_at(b: Seq<u8>, k: int) -> u16 {
    (b[2 * k] + 256 * b[2 * k + 1]) as u16
}

/// Byte `j` of the little-endian image of a 32-bit word.
pub open spec fn byte_of_u32(w: u32, j: int) -> u8 {
    if j == 0 {
        (w as int % 256) as u8
    } else if j == 1 {
        ((w as int / 256) % 256) as u8
    } else if j == 2 {
        ((w as int / 65536) % 256) as u8
    } else {
        ((w as int / 16777216) % 256) as u8
    }
}

/// Widen each 2-byte little-endian group to the 4-byte image of the 32-bit
/// float with the same value.
pub open spec fn widened16(b: Seq<u8>) -> Seq<u8> {
    Seq::new(b.len() / 2 * 4, |j: int| byte_of_u32(f32_bits_of_f16(word16_at(b, j / 4)), j % 4))
}

/// Narrow a buffer of 8-byte elements to their low 4 bytes each.
pub(crate) fn narrow_groups8(data: &Vec<u8>) -> (r: Vec<u8>)
    requires
        data@.len() % 8 == 0,
    ensures
        r@ == narrowed64(data@),
{
    let n = data.len();
    let groups = n / 8;
    let mut r: Vec<u8> = Vec::new();
    for g in 0..groups
        invariant
            n == data@.len(),
            n % 8 == 0,
            groups == n / 8,
            r@.len() == 4 * g,
            forall|j: int| 0 <= j < r@.len() ==> r@[j] == data@[(j / 4) * 8 + (j % 4)],
    {
        let base = g * 8;
        let mut k: usize = 0;
        while k < 4
            invariant
                n == data@.len(),
                base == g * 8,
                g < groups,
                groups == n / 8,
                n % 8 == 0,
                k <= 4,
                r@.len() == 4 * g + k,
                forall|j: int| 0 <= j < r@.len() ==> r@[j] == data@[(j / 4) * 8 + (j % 4)],
            decreases 4 - k,
        {
            assert(base + k < n) by {
                assert(g * 8 + 8 <= groups * 8);
            };
            r.push(data[base + k]);
            assert forall|j: int| 0 <= j < r@.len() implies r@[j] == data@[(j / 4) * 8 + (j
                % 4)] by {
                if j == r@.len() - 1 {
                    assert(j / 4 == g as int);
                    assert(j % 4 == k as int);
                }
            };
            k = k + 1;
        }
    }
    proof {
        assert(r@ =~= narrowed64(data@));
    }
    r
}

/// Map each boolean storage byte to 0 or 1.
pub(crate) fn normalize_bool_bytes(data: &Vec<u8>) -> (r: Vec<u8>)
    ensures
        r@ == bool_bytes(data@),
{
    let n = data.len();
    let mut r: Vec<u8> = Vec::new();
    for i in 0..n
        invariant
            n == data@.len(),
            r@.len() == i,
            forall|j: int| 0 <= j < i ==> r@[j] == (if data@[j] == 0 { 0u8 } else { 1u8 }),
    {
        if data[i] == 0 {
            r.push(0);
        } else {
            r.push(1);
        }
    }
    proof {
        assert(r@ =~= bool_bytes(data@));
    }
    r
}

/// Widen one 16-bit float, given as its bit image, to the bit image of the
/// 32-bit float with the same value.
pub(crate) fn widen_f16(h: u16) -> (r: u32)
    ensures
        r == f32_bits_of_f16(h),
{
    let s: u32 = (h / 32768) as u32;
    let e: u32 = ((h / 1024) % 32) as u32;
    let m: u32 = (h % 1024) as u32;
    if e == 0 && m == 0 {
        s * 0x80000000
    } else if e == 0 {
        let mut t: u32 = 0;
        let mut mm: u32 = m;
        proof {
            lemma2_to64();
        }
        while mm < 1024
            invariant
                1 <= m < 1024,
                1 <= mm <= 2046,
                mm == m * pow2(t as nat),
                sub_shift(m as nat) == t + sub_shift(mm as nat),
                t <= 10,
            decreases 2048 - mm,
        {
            proof {
                lemma2_to64();
                assert(pow2(t as nat) <= mm) by (nonlinear_arith)
                    requires
                        mm == m * pow2(t as nat),
                        m >= 1,
                        pow2(t as nat) >= 0,
                ;
                if t >= 10 {
                    assert(t == 10);
                    assert(false);
                }
            }
            let ghost old_mm = mm;
            let ghost old_t = t;
            mm = mm * 2;
            t = t + 1;
            proof {
                assert(pow2(t as nat) == 2 * pow2(old_t as nat)) by {
                    vstd::arithmetic::power2::lemma_pow2_unfold(t as nat);
                };
                assert(mm == m * pow2(t as nat)) by (nonlinear_arith)
                    requires
                        mm == 2 * old_mm,
                        old_mm == m * pow2(old_t as nat),
                        pow2(t as nat) == 2 * pow2(old_t as nat),
                ;
                assert(sub_shift(old_mm as nat) == 1 + sub_shift((2 * old_mm) as nat));
            }
        }
        s * 0x80000000 + (113 - t) * 0x800000 + (mm % 1024) * 8192
    } else if e == 31 {
        s * 0x80000000 + 255 * 0x800000 + m * 8192
    } else {
        s * 0x80000000 + (e + 112) * 0x800000 + m * 8192
    }
}

/// Widen a buffer of 2-byte 16-bit float elements to 4-byte 32-bit float
/// elements.
pub(crate) fn widen_groups2(data: &Vec<u8>) -> (r: Vec<u8>)
    requires
        data@.len() % 2 == 0,
    ensures
        r@ == widened16(data@),
{
    let n = data.len();
    let groups = n / 2;
    let mut r: Vec<u8> = Vec::new();
    for g in 0..groups
        invariant
            n == data@.len(),
            n % 2 == 0,
            groups == n / 2,
            r@.len() == 4 * g,
            forall|j: int| 0 <= j < r@.len() ==> r@[j] == byte_of_u32(
                f32_bits_of_f16(word16_at(data@, j / 4)),
                j % 4,
            ),
    {
        assert(2 * g + 1 < n) by {
            assert(g * 2 + 2 <= groups * 2);
        };
        let h: u16 = data[2 * g] as u16 + 256 * (data[2 * g + 1] as u16);
        let w: u32 = widen_f16(h);
        proof {
            assert(h == word16_at(data@, g as int));
        }
        let b0: u8 = (w % 256) as u8;
        let b1: u8 = ((w / 256) % 256) as u8;
        let b2: u8 = ((w / 65536) % 256) as u8;
        let b3: u8 = ((w / 16777216) % 256) as u8;
        r.push(b0);
        r.push(b1);
        r.push(b2);
        r.push(b3);
        assert forall|j: int| 0 <= j < r@.len() implies r@[j] == byte_of_u32(
            f32_bits_of_f16(word16_at(data@, j / 4)),
            j % 4,
        ) by {
            if j >= r@.len() - 4 {
                assert(j / 4 == g as int);
            }
        };
    }
    proof {
        assert(r@ =~= widened16(data@));
    }
    r
}

/// Narrowing determinism at the value level: the 8-byte little-endian image
/// of `v` narrows to the 4-byte little-endian image of `v mod 2^32`. Read at
/// a signed type, those low 32 bits are the two's-complement reinterpretation
/// of `v mod 2^32`.
pub proof fn lemma_narrow64_value(v: u64)
    ensures
        narrowed64(le_bytes_u64(v)) == le_bytes_u32((v % 0x100000000) as u32),
{
    let a = narrowed64(le_bytes_u64(v));
    let b = le_bytes_u32((v % 0x100000000) as u32);
    assert(a.len() == 4);
    assert(b.len() == 4);
    let w = (v % 0x100000000) as u32;
    assert(w as int == v as int % 0x100000000);
    lemma_byte_stable(v as int, 1, 0x100000000);
    lemma_byte_stable(v as int, 256, 0x1000000);
    lemma_byte_stable(v as int, 65536, 0x10000);
    lemma_byte_stable(v as int, 16777216, 256);
    assert forall|j: int| 0 <= j < 4 implies a[j] == b[j] by {
        assert((j / 4) * 8 + (j % 4) == j);
    };
    assert(a =~= b);
}

/// Dividing by a power of two below 2^32 and keeping one byte sees only the
/// low 32 bits of the dividend.
proof fn lemma_byte_stable(v: int, c: int, k: int)
    requires
        v >= 0,
        c >= 1,
        k >= 1,
        c * k == 0x100000000,
        k % 256 == 0,
    ensures
        (v / c) % 256 == ((v % 0x100000000) / c) % 256,
{
    let n = 0x100000000;
    let q = v / n;
    let r = v % n;
    vstd::arithmetic::div_mod::lemma_fundamental_div_mod(v, n);
    assert(v == r + (k * q) * c) by (nonlinear_arith)
        requires
            v == n * q + r,
            c * k == n,
    ;
    vstd::arithmetic::div_mod::lemma_hoist_over_denominator(r, k * q, c as nat);
    assert(v / c == r / c + k * q);
    let kk = k / 256;
    vstd::arithmetic::div_mod::lemma_fundamental_div_mod(k, 256);
    assert(k == 256 * kk);
    assert(k * q == 256 * (kk * q)) by (nonlinear_arith)
        requires
            k == 256 * kk,
    ;
    vstd::arithmetic::div_mod::lemma_mod_multiples_vanish(kk * q, r / c, 256);
    assert((256 * (kk * q) + r / c) % 256 == (r / c) % 256);
}

/// Byte `j` of the little-endian image of a 64-bit word.
pub open spec fn byte_of_u64(v: u64, j: int) -> u8 {
    if j == 0 {
        (v as int % 256) as u8
    } else if j == 1 {
        ((v as int / 256) % 256) as u8
    } else if j == 2 {
        ((v as int / 65536) % 256) as u8
    } else if j == 3 {
        ((v as int / 16777216) % 256) as u8
    } else if j == 4 {
        ((v as int / 0x100000000) % 256) as u8
    } else if j == 5 {
        ((v as int / 0x10000000000) % 256) as u8
    } else if j == 6 {
        ((v as int / 0x1000000000000) % 256) as u8
    } else {
        ((v as int / 0x100000000000000) % 256) as u8
    }
}

/// The 8-byte little-endian image of a 64-bit word.
pub open spec fn le_bytes_u64(v: u64) -> Seq<u8> {
    Seq::new(8, |j: int| byte_of_u64(v, j))
}

/// The 4-byte little-endian image of a 32-bit word.
pub open spec fn le_bytes_u32(w: u32) -> Seq<u8> {
    Seq::new(4, |j: int| byte_of_u32(w, j))
}

} // verus!
