//! Page arithmetic behind the shared-data window.
//!
//! Code inside the shared object locates its shared data without being told
//! where it is: it reads its own program counter, rounds it down to a page
//! boundary, and steps back over the shared-data window that the host mapped
//! immediately before the code. This module holds that arithmetic and the
//! proof that it lands on the base the host chose.

use vstd::prelude::*;
use vstd::arithmetic::div_mod::{
    lemma_fundamental_div_mod, lemma_mod_division_less_than_divisor, lemma_mod_multiples_basic,
    lemma_small_mod,
};
use vstd::arithmetic::power2::pow2;

verus! {

/// Holds for the page sizes the mapping arithmetic accepts: powers of two.
pub open spec fn is_page_size(p: usize) -> bool {
    exists|k: usize| k < 32 && p == (1usize << k)
}

/// The smallest multiple of `align` that is at least `size`.
pub open spec fn spec_align_up(size: usize, align: usize) -> int
    recommends
        align > 0,
{
    ((size + align - 1) / (align as int)) * align
}

proof fn lemma_page_size_pos(p: usize)
    requires
        is_page_size(p),
    ensures
        p >= 1,
{
    let k = choose|k: usize| k < 32 && p == (1usize << k);
    assert(p == 1usize << k && k < 32 ==> p >= 1) by (bit_vector);
}

proof fn lemma_mask_round_down(x: usize, p: usize)
    requires
        is_page_size(p),
    ensures
        x & !((p - 1) as usize) == x - x % p,
        x % p == (x & ((p - 1) as usize)),
{
    let k = choose|k: usize| k < 32 && p == (1usize << k);
    vstd::arithmetic::power2::lemma_pow2_pos(k as nat);
    vstd::bits::lemma_usize_pow2_no_overflow(k as nat);
    vstd::bits::lemma_usize_shl_is_mul(1usize, k);
    assert(p == pow2(k as nat));
    let h = x >> k;
    assert(p == 1usize << k && k < 32 ==> (x & !((p - 1) as usize)) == ((x >> k) << k))
        by (bit_vector);
    vstd::bits::lemma_usize_shr_is_div(x, k);
    assert(h == x as nat / pow2(k as nat));
    lemma_fundamental_div_mod(x as int, p as int);
    lemma_mod_division_less_than_divisor(x as int, p as int);
    assert(h * p == x - x % p);
    vstd::bits::lemma_usize_shl_is_mul(h, k);
    assert((h << k) == x - x % p);
    assert(p == 1usize << k && k < 32 ==> (x & ((p - 1) as usize)) == x - (x & !((p - 1)
        as usize))) by (bit_vector);
}

/// Rounds `size` up to the next multiple of the page size `align`: the size
/// of the window the host reserves for the shared data.
pub fn align_up(size: usize, align: usize) -> (r: usize)
    requires
        is_page_size(align),
        size + align - 1 <= usize::MAX,
    ensures
        r == spec_align_up(size, align),
        r % align == 0,
        size <= r < size + align,
{
    proof {
        let k = choose|k: usize| k < 32 && align == (1usize << k);
        assert(align == 1usize << k && k < 32 ==> align >= 1) by (bit_vector);
    }
    let x = size + (align - 1);
    let r = x & !(align - 1);
    proof {
        lemma_mask_round_down(x, align);
        lemma_fundamental_div_mod(x as int, align as int);
        lemma_mod_division_less_than_divisor(x as int, align as int);
        lemma_mod_multiples_basic((x / align) as int, align as int);
        assert((x - x % align) % (align as int) == 0);
    }
    r
}

/// Rounds the running program counter down to the page boundary on which
/// `.text` begins. The shared object reads its own program counter and hands
/// it in; the layout guarantees `.text` starts on a page boundary, so the
/// result is the load address of the code.
pub fn get_code_base(pc: usize, page_size: usize) -> (r: usize)
    requires
        is_page_size(page_size),
    ensures
        r == pc - pc % page_size,
        r % page_size == 0,
        r <= pc < r + page_size,
{
    proof {
        lemma_page_size_pos(page_size);
    }
    let r = pc & !(page_size - 1);
    proof {
        lemma_mask_round_down(pc, page_size);
        lemma_fundamental_div_mod(pc as int, page_size as int);
        lemma_mod_division_less_than_divisor(pc as int, page_size as int);
        lemma_mod_multiples_basic((pc / page_size) as int, page_size as int);
    }
    r
}

/// Steps from the running program counter back to the base of the shared-data
/// window: the page boundary below the program counter, minus the size of the
/// window (`data_size` rounded up to whole pages).
pub fn get_data_base(pc: usize, page_size: usize, data_size: usize) -> (r: usize)
    requires
        is_page_size(page_size),
        data_size + page_size - 1 <= usize::MAX,
        pc - pc % page_size >= spec_align_up(data_size, page_size),
    ensures
        r == pc - pc % page_size - spec_align_up(data_size, page_size),
{
    let vvar_size = align_up(data_size, page_size);
    let code_base = get_code_base(pc, page_size);
    code_base - vvar_size
}

/// Addressing law: if the host reserves a region at a page-aligned base `b`,
/// lays the shared-data window of `align_up(data_size, p)` bytes at `b`, and
/// maps the code right after it, then for every program counter inside the
/// first code page the computed data base is exactly `b`. The accessor inside
/// the object therefore reads the very bytes the host wrote, whatever base
/// the host chose.
pub proof fn lemma_vvar_addressing(b: usize, p: usize, data_size: usize, pc: usize)
    requires
        is_page_size(p),
        b % p == 0,
        data_size + p - 1 <= usize::MAX,
        b + spec_align_up(data_size, p) <= pc < b + spec_align_up(data_size, p) + p,
    ensures
        pc - pc % p - spec_align_up(data_size, p) == b,
{
    let v = spec_align_up(data_size, p);
    assert(p > 0) by {
        let k = choose|k: usize| k < 32 && p == (1usize << k);
        assert(p == 1usize << k && k < 32 ==> p >= 1) by (bit_vector);
    }
    assert(v % (p as int) == 0) by {
        lemma_mod_multiples_basic(((data_size + p - 1) / (p as int)), p as int);
    }
    let r = pc - (b + v);
    assert(0 <= r < p);
    let q = b as int / p as int + v as int / p as int;
    assert(b + v == q * p) by {
        lemma_fundamental_div_mod(b as int, p as int);
        lemma_fundamental_div_mod(v as int, p as int);
        vstd::arithmetic::mul::lemma_mul_is_distributive_add_other_way(
            p as int,
            b as int / p as int,
            v as int / p as int,
        );
    }
    assert(pc % p == r) by {
        assert((q * p + r) % (p as int) == r % (p as int)) by {
            vstd::arithmetic::div_mod::lemma_mod_multiples_vanish(q, r, p as int);
        }
        lemma_small_mod(r as nat, p as nat);
    }
}

} // verus!
