//! Rounding of sizes up to a growth granularity.
use vstd::prelude::*;

verus! {

/// Size of one page of virtual memory.
pub const PAGE_SIZE: usize = 0x1000;

/// The smallest multiple of `g` that is at least `a`.
pub open spec fn round_up(a: int, g: int) -> int {
    ((a + g - 1) / g) * g
}

/// A granularity that the allocators grow by: a power of two.
pub open spec fn is_pow2(g: usize) -> bool {
    exists|k: nat| k < 64 && g == vstd::arithmetic::power2::pow2(k)
}

/// `round_up` is a multiple of `g`, at least `a`, and less than `a + g`.
pub proof fn lemma_round_up(a: int, g: int)
    requires
        0 <= a,
        0 < g,
    ensures
        round_up(a, g) % g == 0,
        a <= round_up(a, g) < a + g,
        a % g == 0 ==> round_up(a, g) == a,
{
    let q = (a + g - 1) / g;
    let r = (a + g - 1) % g;
    vstd::arithmetic::div_mod::lemma_fundamental_div_mod(a + g - 1, g);
    vstd::arithmetic::div_mod::lemma_mod_multiples_basic(q, g);
    assert(0 <= r < g) by {
        vstd::arithmetic::div_mod::lemma_mod_pos_bound(a + g - 1, g);
    }
    assert(q * g == g * q) by (nonlinear_arith);
    if a % g == 0 {
        vstd::arithmetic::div_mod::lemma_fundamental_div_mod(a, g);
        let k = a / g;
        assert(a + g - 1 == g * k + (g - 1));
        vstd::arithmetic::div_mod::lemma_div_multiples_vanish_fancy(k, g - 1, g);
        assert(q == k);
        assert(q * g == g * k) by (nonlinear_arith) requires q == k;
    }
}

/// Relies on linked_list_allocator::align_up: for a power-of-two `align`, the
/// smallest multiple of `align` that is at least `addr`. It computes
/// `addr + align` before subtracting one, so that sum must fit.
#[verifier::external_body]
pub(crate) fn align_up(addr: usize, align: usize) -> (r: usize)
    requires
        is_pow2(align),
        addr + align <= usize::MAX,
    ensures
        r as int == round_up(addr as int, align as int),
{
    linked_list_allocator::align_up(addr, align)
}

/// The page granularity is a power of two.
pub proof fn lemma_page_size_pow2()
    ensures
        is_pow2(PAGE_SIZE),
{
    vstd::arithmetic::power2::lemma2_to64();
    assert(PAGE_SIZE == vstd::arithmetic::power2::pow2(12));
}

} // verus!
