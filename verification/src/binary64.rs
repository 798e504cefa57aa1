//! IEEE 754 binary64 bit patterns of unsigned integers.
//!
//! The kernel stores each invocation index as a double. The host side holds
//! such a value as its 64-bit pattern, so that everything said about it is
//! said over integers.

use vstd::arithmetic::div_mod::*;
use vstd::arithmetic::power2::*;
use vstd::prelude::*;

verus! {

/// Bias added to the exponent of a normal binary64 value.
pub const EXPONENT_BIAS: u64 = 1023;

/// Two to the power 52: the weight of the lowest exponent bit, and the
/// implicit leading one of a normal fraction.
pub const FRACTION_SCALE: u64 = 0x10_0000_0000_0000;

/// Position of the highest set bit of `i`; zero for `i <= 1`.
pub open spec fn top_bit(i: nat) -> nat
    decreases i,
{
    if i <= 1 {
        0
    } else {
        1 + top_bit(i / 2)
    }
}

/// The bit pattern of the double whose value is the integer `i`, for
/// `i` below two to the power 53: zero for zero, and otherwise the biased
/// exponent above the fraction that is left once the leading one is dropped.
pub open spec fn double_bits(i: nat) -> nat {
    if i == 0 {
        0
    } else {
        let e = top_bit(i);
        ((1023 + e) * pow2(52) + (i - pow2(e)) * pow2((52 - e) as nat)) as nat
    }
}

/// The sign bit of a pattern.
pub open spec fn sign_of(bits: nat) -> nat {
    bits / pow2(63)
}

/// The biased exponent field of a pattern.
pub open spec fn exponent_of(bits: nat) -> nat {
    (bits / pow2(52)) % pow2(11)
}

/// The fraction field of a pattern.
pub open spec fn fraction_of(bits: nat) -> nat {
    bits % pow2(52)
}

/// `bits` is the pattern of a non-negative double below two to the power 53
/// whose value is exactly the integer `i`: positive zero, or a normal number
/// `(2^52 + fraction) * 2^(exponent - 1075)` with nothing lost to the
/// negative power.
pub open spec fn denotes(bits: nat, i: nat) -> bool {
    if bits == 0 {
        i == 0
    } else {
        &&& sign_of(bits) == 0
        &&& 1023 <= exponent_of(bits) <= 1075
        &&& pow2(52) + fraction_of(bits) == i * pow2((1075 - exponent_of(bits)) as nat)
    }
}

/// The first `n` indices as doubles, in order, for `n` up to two to the
/// power 53.
pub open spec fn index_doubles(n: nat) -> Seq<u64> {
    Seq::new(n, |i: int| double_bits(i as nat) as u64)
}

/// A number between a power of two and its double has its highest bit at
/// that power.
pub proof fn lemma_top_bit_between(i: nat, e: nat)
    requires
        pow2(e) <= i < 2 * pow2(e),
    ensures
        top_bit(i) == e,
    decreases e,
{
    lemma2_to64();
    if e == 0 {
        assert(i == 1);
    } else {
        lemma_pow2_unfold(e);
        let h = (e - 1) as nat;
        assert(pow2(e) == 2 * pow2(h));
        assert(pow2(h) <= i / 2 < 2 * pow2(h));
        lemma_pow2_pos(h);
        lemma_top_bit_between(i / 2, h);
    }
}

/// Every positive number lies between the power of two at its highest bit
/// and the next one.
pub proof fn lemma_top_bit_bounds(i: nat)
    requires
        i > 0,
    ensures
        pow2(top_bit(i)) <= i < 2 * pow2(top_bit(i)),
    decreases i,
{
    lemma2_to64();
    if i <= 1 {
    } else {
        lemma_top_bit_bounds(i / 2);
        lemma_pow2_unfold(top_bit(i));
    }
}

/// The highest bit of a number below a power of two lies below that power.
pub proof fn lemma_top_bit_below(i: nat, w: nat)
    requires
        0 < i < pow2(w),
    ensures
        top_bit(i) < w,
{
    lemma_top_bit_bounds(i);
    if top_bit(i) >= w {
        if top_bit(i) > w {
            lemma_pow2_strictly_increases(w, top_bit(i));
        }
    }
}

/// The three fields of the pattern that `double_bits` gives a positive
/// number, and the identity that makes its value that number.
pub proof fn lemma_double_bits_fields(i: nat)
    requires
        0 < i < pow2(53),
    ensures
        0 < double_bits(i) < pow2(63),
        sign_of(double_bits(i)) == 0,
        exponent_of(double_bits(i)) == 1023 + top_bit(i),
        top_bit(i) <= 52,
        pow2(52) + fraction_of(double_bits(i)) == i * pow2((52 - top_bit(i)) as nat),
{
    lemma2_to64();
    lemma2_to64_rest();
    lemma_top_bit_bounds(i);
    lemma_top_bit_below(i, 53);
    let e = top_bit(i);
    let low = pow2(e);
    let scale = pow2((52 - e) as nat);
    let unit = pow2(52);
    let rest = (i - low) as nat;
    let fraction = rest * scale;
    lemma_pow2_adds(e, (52 - e) as nat);
    lemma_pow2_pos((52 - e) as nat);
    assert(low * scale == unit);
    assert(fraction < unit) by (nonlinear_arith)
        requires
            rest < low,
            scale > 0,
            low * scale == unit,
            fraction == rest * scale,
    ;
    assert(unit + fraction == i * scale) by (nonlinear_arith)
        requires
            low * scale == unit,
            fraction == rest * scale,
            rest == i - low,
    ;
    let bits = double_bits(i);
    assert(bits == (1023 + e) * unit + fraction);
    lemma_fundamental_div_mod_converse(bits as int, unit as int, (1023 + e) as int, fraction as int);
    assert(bits / unit == 1023 + e);
    assert(bits % unit == fraction);
    lemma_small_mod((1023 + e) as nat, pow2(11));
    assert(0 < bits < pow2(63)) by (nonlinear_arith)
        requires
            bits == (1023 + e) * unit + fraction,
            fraction < unit,
            e <= 52,
            unit == 0x10_0000_0000_0000,
            pow2(63) == 0x8000_0000_0000_0000,
    ;
    lemma_basic_div(bits as int, pow2(63) as int);
}

/// Law: the pattern that `double_bits` gives a number below two to the power
/// 53 is that of the double whose value is exactly that number.
pub proof fn lemma_double_bits_denotes(i: nat)
    requires
        i < pow2(53),
    ensures
        denotes(double_bits(i), i),
{
    if i > 0 {
        lemma_double_bits_fields(i);
        let bits = double_bits(i);
        assert((1075 - exponent_of(bits)) as nat == (52 - top_bit(i)) as nat);
    }
}

/// The bit pattern of the double whose value is `i`.
pub fn index_to_double_bits(i: u32) -> (bits: u64)
    ensures
        bits as nat == double_bits(i as nat),
        denotes(bits as nat, i as nat),
{
    proof {
        lemma2_to64();
        lemma2_to64_rest();
        lemma_double_bits_denotes(i as nat);
    }
    if i == 0 {
        return 0;
    }
    let wide: u64 = i as u64;
    let mut e: u64 = 0;
    let mut low: u64 = 1;
    let mut scale: u64 = FRACTION_SCALE;
    while low * 2 <= wide
        invariant
            wide == i,
            e <= 31,
            low == pow2(e as nat),
            scale == pow2((52 - e) as nat),
            low <= wide,
        decreases 32 - e,
    {
        proof {
            lemma2_to64();
            lemma_pow2_unfold((e + 1) as nat);
            lemma_pow2_unfold((52 - e) as nat);
            if e >= 31 {
                lemma_pow2_strictly_increases(31, (e + 1) as nat);
            }
        }
        low = low * 2;
        scale = scale / 2;
        e = e + 1;
    }
    proof {
        lemma_top_bit_between(i as nat, e as nat);
        lemma_pow2_adds(e as nat, (52 - e) as nat);
        assert((wide - low) * scale < 0x10_0000_0000_0000) by (nonlinear_arith)
            requires
                low <= wide < 2 * low,
                scale > 0,
                low * scale == 0x10_0000_0000_0000,
        ;
    }
    let fraction: u64 = (wide - low) * scale;
    (EXPONENT_BIAS + e) * FRACTION_SCALE + fraction
}

/// Whether `out` holds exactly the first `n` indices as doubles, in order.
pub fn holds_index_doubles(out: &Vec<u64>, n: u32) -> (yes: bool)
    ensures
        yes <==> out@ == index_doubles(n as nat),
{
    if out.len() as u64 != n as u64 {
        return false;
    }
    let mut i: u32 = 0;
    while i < n
        invariant
            i <= n,
            out.len() == n,
            forall|k: int| 0 <= k < i ==> out[k] as nat == double_bits(k as nat),
        decreases n - i,
    {
        if out[i as usize] != index_to_double_bits(i) {
            assert(out@[i as int] != index_doubles(n as nat)[i as int]);
            return false;
        }
        i = i + 1;
    }
    assert(out@ =~= index_doubles(n as nat));
    true
}

} // verus!
