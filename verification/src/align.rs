//! Rounding of sizes and offsets to alignments.
use vstd::prelude::*;

verus! {

/// `alignment` is a power of two (the only alignments Vulkan hands out).
pub open spec fn is_power_of_two_u64(alignment: u64) -> bool {
    alignment != 0 && (alignment & (alignment - 1) as u64) == 0
}

/// `value` rounded up with the mask `!(alignment - 1)`; zero alignment keeps it.
pub open spec fn aligned_up_64(value: u64, alignment: u64) -> u64 {
    if alignment == 0 {
        value
    } else {
        ((value + alignment - 1) as u64 & !((alignment - 1) as u64))
    }
}

/// `value` rounded up with the mask `!(alignment - 1)`; zero alignment and
/// zero value keep it.
pub open spec fn aligned_up_32(value: u32, alignment: u32) -> u32 {
    if alignment == 0 {
        value
    } else if value == 0 {
        0
    } else {
        ((value + alignment - 1) as u32 & !((alignment - 1) as u32))
    }
}

/// Rounding up adds less than the alignment, whatever the alignment.
pub proof fn lemma_aligned_up_64_bound(value: u64, alignment: u64)
    requires
        alignment == 0 || value + alignment - 1 <= u64::MAX,
    ensures
        aligned_up_64(value, alignment) <= value + alignment,
{
    if alignment != 0 {
        let s = (value + alignment - 1) as u64;
        let m = !((alignment - 1) as u64);
        assert(s & m <= s) by (bit_vector);
    }
}

/// Rounding up adds less than the alignment, whatever the alignment.
pub proof fn lemma_aligned_up_32_bound(value: u32, alignment: u32)
    requires
        alignment == 0 || value == 0 || value + alignment - 1 <= u32::MAX,
    ensures
        aligned_up_32(value, alignment) <= value + alignment,
{
    if alignment != 0 && value != 0 {
        let s = (value + alignment - 1) as u32;
        let m = !((alignment - 1) as u32);
        assert(s & m <= s) by (bit_vector);
    }
}

/// Rounds `value` up with the mask `!(alignment - 1)`; zero alignment keeps the value.
pub fn align_up_64(value: u64, alignment: u64) -> (r: u64)
    requires
        alignment == 0 || value + alignment - 1 <= u64::MAX,
    ensures
        r == aligned_up_64(value, alignment),
        alignment == 0 ==> r == value,
        alignment != 0 ==> r == ((value + alignment - 1) as u64 & !((alignment - 1) as u64)),
        is_power_of_two_u64(alignment) ==> r & ((alignment - 1) as u64) == 0 && value <= r && r < value + alignment,
{
    if alignment == 0 {
        return value;
    }
    let r = (value + (alignment - 1)) & !(alignment - 1);
    proof {
        if is_power_of_two_u64(alignment) {
            let s = (value + alignment - 1) as u64;
            let a = alignment;
            assert(r & ((a - 1) as u64) == 0 && value <= r && r < value + a) by (bit_vector)
                requires
                    a != 0,
                    a & ((a - 1) as u64) == 0,
                    value + a - 1 <= 0xffff_ffff_ffff_ffffu64,
                    s == value + a - 1,
                    r == s & !((a - 1) as u64);
        }
    }
    r
}


/// Rounds `value` down to a multiple of `alignment`; zero alignment keeps the value.
pub fn align_down_64(value: u64, alignment: u64) -> (r: u64)
    ensures
        alignment == 0 ==> r == value,
        alignment != 0 ==> r == (value / alignment) * alignment,
        alignment != 0 ==> r <= value && value - r < alignment && r % alignment == 0,
{
    if alignment == 0 {
        return value;
    }
    proof {
        lemma_align_down(value as int, alignment as int);
    }
    (value / alignment) * alignment
}

/// `alignment` is a power of two.
pub open spec fn is_power_of_two_u32(alignment: u32) -> bool {
    alignment != 0 && (alignment & (alignment - 1) as u32) == 0
}

/// Rounds `value` up with the mask `!(alignment - 1)`; zero alignment and zero
/// value are kept.
pub fn align_up_32(value: u32, alignment: u32) -> (r: u32)
    requires
        alignment == 0 || value == 0 || value + alignment - 1 <= u32::MAX,
    ensures
        r == aligned_up_32(value, alignment),
        alignment == 0 ==> r == value,
        alignment != 0 && value == 0 ==> r == 0,
        alignment != 0 && value != 0 ==> r == ((value + alignment - 1) as u32 & !((alignment - 1) as u32)),
        is_power_of_two_u32(alignment) ==> r & ((alignment - 1) as u32) == 0 && value <= r && r < value + alignment,
{
    if alignment == 0 {
        return value;
    }
    if value == 0 {
        proof {
            let a = alignment;
            assert(0u32 & ((a - 1) as u32) == 0) by (bit_vector);
        }
        return 0;
    }
    let r = (value + (alignment - 1)) & !(alignment - 1);
    proof {
        if is_power_of_two_u32(alignment) {
            let s = (value + alignment - 1) as u32;
            let a = alignment;
            assert(r & ((a - 1) as u32) == 0 && value <= r && r < value + a) by (bit_vector)
                requires
                    a != 0,
                    a & ((a - 1) as u32) == 0,
                    value + a - 1 <= 0xffff_ffffu32,
                    s == value + a - 1,
                    r == s & !((a - 1) as u32);
        }
    }
    r
}

/// Rounds `value` down to a multiple of `alignment`; zero alignment keeps the value.
pub fn align_down_32(value: u32, alignment: u32) -> (r: u32)
    ensures
        alignment == 0 ==> r == value,
        alignment != 0 ==> r == (value / alignment) * alignment,
        alignment != 0 ==> r <= value && value - r < alignment && r % alignment == 0,
{
    if alignment == 0 {
        return value;
    }
    proof {
        lemma_align_down(value as int, alignment as int);
    }
    (value / alignment) * alignment
}

/// `alignment` is a power of two.
pub open spec fn is_power_of_two_usize(alignment: usize) -> bool {
    alignment != 0 && (alignment & (alignment - 1) as usize) == 0
}

/// Rounds `value` up with the mask `!(alignment - 1)`; zero alignment and zero
/// value are kept.
pub fn align_up(value: usize, alignment: usize) -> (r: usize)
    requires
        alignment == 0 || value == 0 || value + alignment - 1 <= usize::MAX,
    ensures
        alignment == 0 ==> r == value,
        alignment != 0 && value == 0 ==> r == 0,
        alignment != 0 && value != 0 ==> r == ((value + alignment - 1) as usize & !((alignment - 1) as usize)),
        is_power_of_two_usize(alignment) ==> r & ((alignment - 1) as usize) == 0 && value <= r && r < value + alignment,
{
    if alignment == 0 {
        return value;
    }
    if value == 0 {
        proof {
            let a = alignment;
            assert(0usize & ((a - 1) as usize) == 0) by (bit_vector);
        }
        return 0;
    }
    let r = (value + (alignment - 1)) & !(alignment - 1);
    proof {
        if is_power_of_two_usize(alignment) {
            let s = (value + alignment - 1) as usize;
            let a = alignment;
            assert(r & ((a - 1) as usize) == 0 && value <= r && r < value + a) by (bit_vector)
                requires
                    a != 0,
                    a & ((a - 1) as usize) == 0,
                    s == value + a - 1,
                    r == s & !((a - 1) as usize);
        }
    }
    r
}

/// Rounds `value` down to a multiple of `alignment`; zero alignment keeps the value.
pub fn align_down(value: usize, alignment: usize) -> (r: usize)
    ensures
        alignment == 0 ==> r == value,
        alignment != 0 ==> r == (value / alignment) * alignment,
        alignment != 0 ==> r <= value && value - r < alignment && r % alignment == 0,
{
    if alignment == 0 {
        return value;
    }
    proof {
        lemma_align_down(value as int, alignment as int);
    }
    (value / alignment) * alignment
}

proof fn lemma_align_down(v: int, a: int)
    requires
        v >= 0,
        a > 0,
    ensures
        (v / a) * a <= v,
        v - (v / a) * a < a,
        ((v / a) * a) % a == 0,
        (v / a) * a >= 0,
{
    assert((v / a) * a <= v && v - (v / a) * a < a && (v / a) * a >= 0) by (nonlinear_arith)
        requires
            v >= 0,
            a > 0,
    {
        assert(v == a * (v / a) + v % a);
    }
    vstd::arithmetic::div_mod::lemma_mod_multiples_basic(v / a, a);
}

/// Law: rounding down never passes a value and rounding up never falls below
/// it; the two meet exactly on multiples of the alignment.
pub proof fn law_align_brackets(value: u64, alignment: u64)
    requires
        is_power_of_two_u64(alignment),
        value + alignment - 1 <= u64::MAX,
    ensures
        ({
            let down = (value / alignment) * alignment;
            let up = ((value + alignment - 1) as u64 & !((alignment - 1) as u64));
            &&& down <= value <= up
            &&& up - down < 2 * alignment
            &&& (value % alignment == 0 ==> down == value)
        }),
{
    lemma_align_down(value as int, alignment as int);
    let s = (value + alignment - 1) as u64;
    let a = alignment;
    let up = s & !((a - 1) as u64);
    assert(value <= up && up < value + a) by (bit_vector)
        requires
            a != 0,
            a & ((a - 1) as u64) == 0,
            value + a - 1 <= 0xffff_ffff_ffff_ffffu64,
            s == value + a - 1,
            up == s & !((a - 1) as u64);
    if value % alignment == 0 {
        assert((value / alignment) * alignment == value) by (nonlinear_arith)
            requires
                value % alignment == 0,
                alignment > 0,
        {
            assert(value == alignment * (value / alignment) + value % alignment);
        }
    }
}

/// A multiple of a power of two has none of the bits below it.
proof fn lemma_multiple_low_bits_clear(q: nat, a: u64)
    requires
        is_power_of_two_u64(a),
        q * a <= u64::MAX,
    ensures
        ((q * a) as u64) & ((a - 1) as u64) == 0,
    decreases q,
{
    if q > 0 {
        assert((q - 1) * a + a == q * a && (q - 1) * a <= q * a) by (nonlinear_arith)
            requires
                q > 0;
        lemma_multiple_low_bits_clear((q - 1) as nat, a);
        let x = ((q - 1) * a) as u64;
        let y = (q * a) as u64;
        assert(y & ((a - 1) as u64) == 0) by (bit_vector)
            requires
                a != 0,
                a & ((a - 1) as u64) == 0,
                x & ((a - 1) as u64) == 0,
                y == x + a;
    } else {
        assert(q * a == 0) by (nonlinear_arith)
            requires
                q == 0;
        assert(0u64 & ((a - 1) as u64) == 0) by (bit_vector);
    }
}

/// A value with none of the bits below a power of two is a multiple of it.
proof fn lemma_low_bits_clear_is_multiple(v: u64, a: u64)
    requires
        is_power_of_two_u64(a),
        v & ((a - 1) as u64) == 0,
    ensures
        v % a == 0,
{
    let q = v / a;
    let r = v % a;
    vstd::arithmetic::div_mod::lemma_fundamental_div_mod(v as int, a as int);
    assert(q * a <= v) by (nonlinear_arith)
        requires
            v == a * q + r,
            0 <= r,
    {
    }
    lemma_multiple_low_bits_clear(q as nat, a);
    let x = (q * a) as u64;
    let r64 = r as u64;
    assert(r64 == 0) by (bit_vector)
        requires
            a != 0,
            a & ((a - 1) as u64) == 0,
            x & ((a - 1) as u64) == 0,
            r64 < a,
            v == x + r64,
            v & ((a - 1) as u64) == 0;
}

/// Law: rounding up is idempotent, and a rounded-up value is kept by rounding
/// down, for a zero alignment or a power of two.
pub proof fn law_align_up_idempotent(value: u64, alignment: u64)
    requires
        alignment == 0 || is_power_of_two_u64(alignment),
        alignment == 0 || value + alignment - 1 <= u64::MAX,
    ensures
        ({
            let up = aligned_up_64(value, alignment);
            &&& alignment == 0 || up + alignment - 1 <= u64::MAX
            &&& aligned_up_64(up, alignment) == up
            &&& alignment != 0 ==> (up / alignment) * alignment == up
        }),
{
    if alignment != 0 {
        let a = alignment;
        let s = (value + a - 1) as u64;
        let up = s & !((a - 1) as u64);
        assert(up & ((a - 1) as u64) == 0) by (bit_vector)
            requires
                up == s & !((a - 1) as u64);
        assert(up + a - 1 <= 0xffff_ffff_ffff_ffffu64 && ((up + a - 1) as u64 & !((a - 1) as u64)) == up) by (bit_vector)
            requires
                a != 0,
                a & ((a - 1) as u64) == 0,
                up & ((a - 1) as u64) == 0;
        lemma_low_bits_clear_is_multiple(up, a);
        assert((up / a) * a == up) by (nonlinear_arith)
            requires
                up % a == 0,
                a > 0,
        {
            assert(up == a * (up / a) + up % a);
        }
    }
}

} // verus!
