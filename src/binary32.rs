//! Exact conversion of IEEE-754 binary32 bit patterns to binary64 bit
//! patterns and back, on integers.
//!
//! Every binary32 value is a binary64 value, so widening is exact; a
//! binary64 value narrows only when it is a binary32 value.

use vstd::prelude::*;

verus! {

/// `p` is the position of the highest set bit of the binary32 fraction `m`.
pub open spec fn top_bit_at(m: u64, p: u64) -> bool {
    p < 23 && (1u64 << p) <= m && m < (1u64 << vstd::prelude::add(p, 1u64))
}

/// The binary64 bits of the binary32 value with bits `x`, given the top
/// bit `p` of its fraction (used only for a subnormal value).
pub open spec fn widen_with(x: u64, p: u64) -> u64 {
    let s = (x >> 31u64) << 63u64;
    let e = (x >> 23u64) & 0xFFu64;
    let m = x & 0x7F_FFFFu64;
    if e == 0xFFu64 {
        s | 0x7FF0_0000_0000_0000u64 | (m << 29u64)
    } else if e != 0u64 {
        s | (vstd::prelude::add(e, 896u64) << 52u64) | (m << 29u64)
    } else if m == 0u64 {
        s
    } else {
        s | (vstd::prelude::add(p, 874u64) << 52u64) | (((m ^ (1u64 << p)) << vstd::prelude::sub(52u64, p))
            & 0xF_FFFF_FFFF_FFFFu64)
    }
}

/// The top bit of the fraction of the binary32 bits `b`.
pub open spec fn fraction_top(b: u32) -> u64 {
    choose|p: u64| #[trigger] top_bit_at((b as u64) & 0x7F_FFFFu64, p)
}

/// The binary64 bits of the binary32 value with bits `b`.
pub open spec fn widen(b: u32) -> u64 {
    widen_with(b as u64, fraction_top(b))
}

/// The binary32 bits that the binary64 bits `d` narrow to, when `d` is a
/// binary32 value.
pub open spec fn narrow_bits(d: u64) -> u64 {
    let s = (d >> 63u64) << 31u64;
    let ex = (d >> 52u64) & 0x7FFu64;
    let mt = d & 0xF_FFFF_FFFF_FFFFu64;
    if ex == 0x7FFu64 {
        s | 0x7F80_0000u64 | (mt >> 29u64)
    } else if ex >= 897u64 {
        s | ((vstd::prelude::sub(ex, 896u64) & 0xFFu64) << 23u64) | (mt >> 29u64)
    } else if ex >= 874u64 {
        s | (1u64 << vstd::prelude::sub(ex, 874u64)) | (mt >> vstd::prelude::sub(
            52u64,
            vstd::prelude::sub(ex, 874u64),
        ))
    } else {
        s
    }
}

/// The candidate binary32 bits for the binary64 bits `d`.
pub open spec fn narrow(d: u64) -> u32 {
    (narrow_bits(d) & 0xFFFF_FFFFu64) as u32
}

/// Whether the binary64 bits `d` are those of a binary32 value.
pub open spec fn is_binary32(d: u64) -> bool {
    widen(narrow(d)) == d
}

/// A fraction has one top bit.
pub proof fn lemma_top_bit_unique(m: u64, p: u64, q: u64)
    requires
        top_bit_at(m, p),
        top_bit_at(m, q),
    ensures
        p == q,
{
    assert(p == q) by (bit_vector)
        requires
            p < 23 && (1u64 << p) <= m && m < (1u64 << vstd::prelude::add(p, 1u64)),
            q < 23 && (1u64 << q) <= m && m < (1u64 << vstd::prelude::add(q, 1u64)),
    ;
}

/// Narrowing a widened normal value gives it back.
proof fn lemma_narrow_widen_normal(x: u64, e: u64, m: u64, w: u64)
    requires
        x < 0x1_0000_0000u64,
        e == (x >> 23u64) & 0xFFu64,
        m == x & 0x7F_FFFFu64,
        e != 0u64,
        e != 0xFFu64,
        w == ((x >> 31u64) << 63u64) | (vstd::prelude::add(e, 896u64) << 52u64) | (m << 29u64),
    ensures
        (w >> 52u64) & 0x7FFu64 == vstd::prelude::add(e, 896u64),
        vstd::prelude::add(e, 896u64) >= 897u64,
        vstd::prelude::add(e, 896u64) != 0x7FFu64,
        vstd::prelude::sub(vstd::prelude::add(e, 896u64), 896u64) == e,
        ((w >> 63u64) << 31u64) == ((x >> 31u64) << 31u64),
        (w & 0xF_FFFF_FFFF_FFFFu64) >> 29u64 == m,
        (((x >> 31u64) << 31u64) | ((e & 0xFFu64) << 23u64) | m) & 0xFFFF_FFFFu64 == x,
{
    let h = vstd::prelude::add(e, 896u64);
    let sx = (x >> 31u64) << 63u64;
    assert(h >= 897u64 && h != 0x7FFu64 && vstd::prelude::sub(h, 896u64) == e && h < 0x800u64) by (bit_vector)
        requires
            h == vstd::prelude::add(e, 896u64),
            e == (x >> 23u64) & 0xFFu64,
            e != 0u64,
            e != 0xFFu64,
    ;
    assert((w >> 52u64) & 0x7FFu64 == h) by (bit_vector)
        requires
            w == sx | (h << 52u64) | (m << 29u64),
            sx == (x >> 31u64) << 63u64,
            h < 0x800u64,
            m == x & 0x7F_FFFFu64,
    ;
    assert(((w >> 63u64) << 31u64) == ((x >> 31u64) << 31u64)) by (bit_vector)
        requires
            w == sx | (h << 52u64) | (m << 29u64),
            sx == (x >> 31u64) << 63u64,
            h < 0x800u64,
            m == x & 0x7F_FFFFu64,
            x < 0x1_0000_0000u64,
    ;
    assert((w & 0xF_FFFF_FFFF_FFFFu64) >> 29u64 == m) by (bit_vector)
        requires
            w == sx | (h << 52u64) | (m << 29u64),
            sx == (x >> 31u64) << 63u64,
            m == x & 0x7F_FFFFu64,
    ;
    assert((((x >> 31u64) << 31u64) | ((e & 0xFFu64) << 23u64) | m) & 0xFFFF_FFFFu64 == x) by (bit_vector)
        requires
            x < 0x1_0000_0000u64,
            e == (x >> 23u64) & 0xFFu64,
            m == x & 0x7F_FFFFu64,
    ;
}

/// Narrowing a widened infinity or NaN gives it back.
proof fn lemma_narrow_widen_special(x: u64, m: u64, w: u64)
    requires
        x < 0x1_0000_0000u64,
        (x >> 23u64) & 0xFFu64 == 0xFFu64,
        m == x & 0x7F_FFFFu64,
        w == ((x >> 31u64) << 63u64) | 0x7FF0_0000_0000_0000u64 | (m << 29u64),
    ensures
        (w >> 52u64) & 0x7FFu64 == 0x7FFu64,
        ((((w >> 63u64) << 31u64) | 0x7F80_0000u64 | ((w & 0xF_FFFF_FFFF_FFFFu64) >> 29u64))
            & 0xFFFF_FFFFu64) == x,
{
    let sx = (x >> 31u64) << 63u64;
    assert((w >> 52u64) & 0x7FFu64 == 0x7FFu64) by (bit_vector)
        requires
            w == sx | 0x7FF0_0000_0000_0000u64 | (m << 29u64),
            m == x & 0x7F_FFFFu64,
    ;
    let sg = (w >> 63u64) << 31u64;
    let lo = (w & 0xF_FFFF_FFFF_FFFFu64) >> 29u64;
    assert(sg == (x >> 31u64) << 31u64 && lo == m) by (bit_vector)
        requires
            w == sx | 0x7FF0_0000_0000_0000u64 | (m << 29u64),
            sx == (x >> 31u64) << 63u64,
            sg == (w >> 63u64) << 31u64,
            lo == (w & 0xF_FFFF_FFFF_FFFFu64) >> 29u64,
            m == x & 0x7F_FFFFu64,
            x < 0x1_0000_0000u64,
    ;
    assert((sg | 0x7F80_0000u64 | lo) & 0xFFFF_FFFFu64 == x) by (bit_vector)
        requires
            sg == (x >> 31u64) << 31u64,
            lo == x & 0x7F_FFFFu64,
            (x >> 23u64) & 0xFFu64 == 0xFFu64,
            x < 0x1_0000_0000u64,
    ;
}

/// Narrowing a widened subnormal value gives it back.
proof fn lemma_narrow_widen_subnormal(x: u64, m: u64, p: u64, w: u64)
    requires
        x < 0x1_0000_0000u64,
        (x >> 23u64) & 0xFFu64 == 0u64,
        m == x & 0x7F_FFFFu64,
        top_bit_at(m, p),
        w == ((x >> 31u64) << 63u64) | (vstd::prelude::add(p, 874u64) << 52u64) | (((m ^ (1u64 << p))
            << vstd::prelude::sub(52u64, p)) & 0xF_FFFF_FFFF_FFFFu64),
    ensures
        (w >> 52u64) & 0x7FFu64 == vstd::prelude::add(p, 874u64),
        vstd::prelude::add(p, 874u64) >= 874u64,
        vstd::prelude::add(p, 874u64) < 897u64,
        vstd::prelude::sub(vstd::prelude::add(p, 874u64), 874u64) == p,
        ((((w >> 63u64) << 31u64) | (1u64 << p) | ((w & 0xF_FFFF_FFFF_FFFFu64) >> vstd::prelude::sub(
            52u64,
            p,
        ))) & 0xFFFF_FFFFu64) == x,
{
    let h = vstd::prelude::add(p, 874u64);
    let sx = (x >> 31u64) << 63u64;
    let f = ((m ^ (1u64 << p)) << vstd::prelude::sub(52u64, p)) & 0xF_FFFF_FFFF_FFFFu64;
    assert(h >= 874u64 && h < 897u64 && vstd::prelude::sub(h, 874u64) == p) by (bit_vector)
        requires
            h == vstd::prelude::add(p, 874u64),
            p < 23u64,
    ;
    assert((w >> 52u64) & 0x7FFu64 == h) by (bit_vector)
        requires
            w == sx | (h << 52u64) | f,
            sx == (x >> 31u64) << 63u64,
            f == ((m ^ (1u64 << p)) << vstd::prelude::sub(52u64, p)) & 0xF_FFFF_FFFF_FFFFu64,
            h < 897u64,
    ;
    assert((w & 0xF_FFFF_FFFF_FFFFu64) >> vstd::prelude::sub(52u64, p) == m ^ (1u64 << p)) by (bit_vector)
        requires
            w == sx | (h << 52u64) | f,
            sx == (x >> 31u64) << 63u64,
            f == ((m ^ (1u64 << p)) << vstd::prelude::sub(52u64, p)) & 0xF_FFFF_FFFF_FFFFu64,
            p < 23u64,
            (1u64 << p) <= m,
            m < (1u64 << vstd::prelude::add(p, 1u64)),
    ;
    assert((w >> 63u64) << 31u64 == (x >> 31u64) << 31u64) by (bit_vector)
        requires
            w == sx | (h << 52u64) | f,
            sx == (x >> 31u64) << 63u64,
            f == ((m ^ (1u64 << p)) << vstd::prelude::sub(52u64, p)) & 0xF_FFFF_FFFF_FFFFu64,
            h < 897u64,
            x < 0x1_0000_0000u64,
    ;
    assert((((x >> 31u64) << 31u64) | (1u64 << p) | (m ^ (1u64 << p))) & 0xFFFF_FFFFu64 == x) by (bit_vector)
        requires
            p < 23u64,
            (1u64 << p) <= m,
            m < (1u64 << vstd::prelude::add(p, 1u64)),
            m == x & 0x7F_FFFFu64,
            (x >> 23u64) & 0xFFu64 == 0u64,
            x < 0x1_0000_0000u64,
    ;
}

/// A non-zero fraction below `2^(p+1)` has a top bit.
proof fn lemma_top_bit_exists(m: u64, p: u64)
    requires
        0 < m,
        p < 23,
        m < (1u64 << vstd::prelude::add(p, 1u64)),
    ensures
        exists|q: u64| #[trigger] top_bit_at(m, q),
    decreases p,
{
    if (m >> p) != 0u64 {
        assert((1u64 << p) <= m) by (bit_vector)
            requires
                p < 23,
                (m >> p) != 0u64,
        ;
        assert(top_bit_at(m, p));
    } else {
        assert(p > 0 && m < (1u64 << vstd::prelude::add(vstd::prelude::sub(p, 1u64), 1u64))) by (bit_vector)
            requires
                p < 23,
                0u64 < m,
                (m >> p) == 0u64,
        ;
        lemma_top_bit_exists(m, (p - 1) as u64);
    }
}

/// Narrowing a widened value gives the value back.
pub proof fn lemma_narrow_widen(b: u32)
    ensures
        narrow(widen(b)) == b,
{
    let x = b as u64;
    let p = fraction_top(b);
    let e = (x >> 23u64) & 0xFFu64;
    let m = x & 0x7F_FFFFu64;
    let w = widen(b);
    assert(x < 0x1_0000_0000u64);
    if e == 0xFFu64 {
        lemma_narrow_widen_special(x, m, w);
    } else if e != 0u64 {
        lemma_narrow_widen_normal(x, e, m, w);
    } else if m == 0u64 {
        assert((((((x >> 31u64) << 63u64) >> 63u64) << 31u64) & 0xFFFF_FFFFu64) == x) by (bit_vector)
            requires
                x < 0x1_0000_0000u64,
                (x >> 23u64) & 0xFFu64 == 0u64,
                x & 0x7F_FFFFu64 == 0u64,
        ;
        assert(((((x >> 31u64) << 63u64) >> 52u64) & 0x7FFu64) == 0u64) by (bit_vector);
    } else {
        assert(m < 0x80_0000u64) by (bit_vector)
            requires
                m == x & 0x7F_FFFFu64,
        ;
        assert(m < (1u64 << vstd::prelude::add(22u64, 1u64))) by (bit_vector)
            requires
                m < 0x80_0000u64,
        ;
        lemma_top_bit_exists(m, 22u64);
        assert(top_bit_at(m, p));
        lemma_narrow_widen_subnormal(x, m, p, w);
    }
}

/// Widening is one-to-one.
pub proof fn lemma_widen_injective(a: u32, b: u32)
    requires
        widen(a) == widen(b),
    ensures
        a == b,
{
    lemma_narrow_widen(a);
    lemma_narrow_widen(b);
}

/// The position of the highest set bit of a non-zero binary32 fraction.
fn top_bit(m: u64) -> (p: u64)
    requires
        0 < m < 0x80_0000u64,
    ensures
        top_bit_at(m, p),
{
    let mut p: u64 = 22;
    assert(m < (1u64 << vstd::prelude::add(22u64, 1u64))) by (bit_vector)
        requires
            m < 0x80_0000u64,
    ;
    while (m >> p) == 0u64
        invariant
            p < 23,
            0 < m,
            m < (1u64 << vstd::prelude::add(p, 1u64)),
        decreases p,
    {
        assert(p > 0 && m < (1u64 << p)) by (bit_vector)
            requires
                p < 23,
                0u64 < m,
                (m >> p) == 0u64,
        ;
        assert(m < (1u64 << vstd::prelude::add(vstd::prelude::sub(p, 1u64), 1u64))) by (bit_vector)
            requires
                p > 0,
                p < 23,
                m < (1u64 << p),
        ;
        p = p - 1;
    }
    assert((1u64 << p) <= m) by (bit_vector)
        requires
            p < 23,
            (m >> p) != 0u64,
    ;
    p
}

/// The binary64 bits of the binary32 value with bits `b`.
pub fn widen_bits(b: u32) -> (r: u64)
    ensures
        r == widen(b),
{
    let x = b as u64;
    let e = (x >> 23u64) & 0xFFu64;
    let m = x & 0x7F_FFFFu64;
    let s = (x >> 31u64) << 63u64;
    if e == 0xFFu64 {
        s | 0x7FF0_0000_0000_0000u64 | (m << 29u64)
    } else if e != 0u64 {
        assert(e < 256u64) by (bit_vector)
            requires
                e == (x >> 23u64) & 0xFFu64,
        ;
        s | ((e + 896u64) << 52u64) | (m << 29u64)
    } else if m == 0u64 {
        s
    } else {
        assert(m < 0x80_0000u64) by (bit_vector)
            requires
                m == x & 0x7F_FFFFu64,
        ;
        let p = top_bit(m);
        proof {
            lemma_top_bit_unique(m, p, fraction_top(b));
        }
        s | ((p + 874u64) << 52u64) | (((m ^ (1u64 << p)) << (52u64 - p)) & 0xF_FFFF_FFFF_FFFFu64)
    }
}

/// The binary32 bits of the binary64 value with bits `d`, when it is a
/// binary32 value.
pub fn narrow_exact(d: u64) -> (r: Option<u32>)
    ensures
        r is Some <==> is_binary32(d),
        r matches Some(b) ==> widen(b) == d,
{
    let s = (d >> 63u64) << 31u64;
    let ex = (d >> 52u64) & 0x7FFu64;
    let mt = d & 0xF_FFFF_FFFF_FFFFu64;
    let n: u64 = if ex == 0x7FFu64 {
        s | 0x7F80_0000u64 | (mt >> 29u64)
    } else if ex >= 897u64 {
        s | (((ex - 896u64) & 0xFFu64) << 23u64) | (mt >> 29u64)
    } else if ex >= 874u64 {
        assert(ex < 897u64);
        s | (1u64 << (ex - 874u64)) | (mt >> (52u64 - (ex - 874u64)))
    } else {
        s
    };
    let c = (n & 0xFFFF_FFFFu64) as u32;
    if widen_bits(c) == d {
        Some(c)
    } else {
        None
    }
}

} // verus!
