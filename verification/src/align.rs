//! Rounding an address up to an alignment boundary.

use vstd::prelude::*;
use vstd::arithmetic::power2::{pow2, lemma_pow2_unfold, lemma_pow2_pos, lemma2_to64};
use vstd::arithmetic::div_mod::{lemma_fundamental_div_mod, lemma_mod_multiples_basic};
use vstd::bits::{low_bits_mask, lemma_u64_low_bits_mask_is_mod};

verus! {

/// True when `a` has exactly one bit set, i.e. is a power of two.
pub open spec fn is_power_of_two(a: u64) -> bool {
    a != 0 && a & (a - 1) as u64 == 0
}

/// A power of two is `pow2` of some exponent below the word width.
proof fn lemma_pow2_exponent(a: u64) -> (k: nat)
    requires
        is_power_of_two(a),
    ensures
        k < 64,
        a == pow2(k),
    decreases a,
{
    lemma2_to64();
    if a == 1 {
        0
    } else {
        assert(a & 1 == 0 && (a >> 1) != 0 && (a >> 1) & ((a >> 1) - 1) as u64 == 0 && (a >> 1)
            < a && a == (a >> 1) + (a >> 1))
            by (bit_vector)
            requires
                a != 0 && a != 1 && a & (a - 1) as u64 == 0,
        ;
        let k0 = lemma_pow2_exponent(a >> 1);
        lemma_pow2_unfold(k0 + 1);
        assert(a == 2 * pow2(k0));
        if k0 + 1 >= 64 {
            // pow2(63) alone already fills the word; a == 2 * pow2(63) cannot fit.
            assert(k0 == 63);
            assert(a == 2 * pow2(63));
            assert(false);
        }
        k0 + 1
    }
}

/// Remainder by a power of two is the bitwise-and with its low-bit mask.
proof fn lemma_mask_is_mod(x: u64, a: u64, k: nat)
    requires
        k < 64,
        a == pow2(k),
    ensures
        x % a == x & (a - 1) as u64,
{
    lemma_u64_low_bits_mask_is_mod(x, k);
    lemma_pow2_pos(k);
    assert(low_bits_mask(k) == (pow2(k) - 1) as nat);
    assert(a - 1 == low_bits_mask(k));
    assert((a - 1) as u64 == low_bits_mask(k) as u64);
}

/// Rounds `addr` up to the next multiple of `align`.
///
/// The result is the smallest multiple of `align` that is at least `addr`;
/// in particular an already-aligned `addr` comes back unchanged.
pub fn align_up(addr: u64, align: u64) -> (r: u64)
    requires
        is_power_of_two(align),
        addr % align == 0 || addr + align - 1 <= u64::MAX,
    ensures
        r % align == 0,
        addr <= r,
        r < addr + align,
        addr % align == 0 ==> r == addr,
        forall|m: u64| #[trigger] (m % align) == 0 && addr <= m ==> r <= m,
{
    proof {
        let k = lemma_pow2_exponent(align);
        lemma_mask_is_mod(addr, align, k);
    }
    let align_mask = align - 1;
    if addr & align_mask == 0 {
        addr
    } else {
        proof {
            assert((addr | align_mask) + (addr & align_mask) == addr + align_mask)
                by (bit_vector)
            ;
            let d = addr as int / align as int;
            lemma_fundamental_div_mod(addr as int, align as int);
            assert((addr | align_mask) + 1 == align * d + align);
            assert((align * d + align) % (align as int) == 0) by {
                assert(align * d + align == (d + 1) * align) by (nonlinear_arith);
                lemma_mod_multiples_basic(d + 1, align as int);
            }
            assert forall|m: u64| #[trigger] (m % align) == 0 && addr <= m implies align * d
                + align <= m by {
                let q = m as int / align as int;
                lemma_fundamental_div_mod(m as int, align as int);
                assert(m == align * q);
                assert(align * q >= align * d + 1);
                assert(q >= d + 1) by (nonlinear_arith)
                    requires
                        align >= 1 && align * q >= align * d + 1,
                ;
                assert(align * q >= align * d + align) by (nonlinear_arith)
                    requires
                        align >= 1 && q >= d + 1,
                ;
            }
        }
        (addr | align_mask) + 1
    }
}

} // verus!
