use vstd::prelude::*;
use vstd::arithmetic::div_mod::lemma_fundamental_div_mod;
use vstd::arithmetic::mul::{lemma_mul_inequality, lemma_mul_is_distributive_add, lemma_mul_strict_inequality};

verus! {

/// Below this bound both factors are small enough that their product fits in a `usize`.
pub const MUL_NO_OVERFLOW: usize = 1usize << (usize::BITS / 2);

proof fn lemma_mul_no_overflow_square()
    ensures
        MUL_NO_OVERFLOW as int * MUL_NO_OVERFLOW as int == usize::MAX as int + 1,
{
    if usize::BITS == 64 {
        assert((1usize << (usize::BITS / 2)) as u64 == 0x1_0000_0000u64) by (bit_vector)
            requires usize::BITS == 64;
        assert(usize::MAX == 0xffff_ffff_ffff_ffff);
        assert(MUL_NO_OVERFLOW == 0x1_0000_0000);
    } else {
        assert((1usize << (usize::BITS / 2)) as u64 == 0x1_0000u64) by (bit_vector)
            requires usize::BITS == 32;
        assert(usize::MAX == 0xffff_ffff);
        assert(MUL_NO_OVERFLOW == 0x1_0000);
    }
}

/// Tells whether `nmemb * size` exceeds what a `usize` can hold.
pub fn reallocarray_overflow(nmemb: usize, size: usize) -> (r: bool)
    ensures
        r == (nmemb as int * size as int > usize::MAX as int),
{
    let r = (nmemb >= MUL_NO_OVERFLOW || size >= MUL_NO_OVERFLOW) && nmemb > 0 && usize::MAX / nmemb < size;
    proof {
        let n = nmemb as int;
        let s = size as int;
        let m = usize::MAX as int;
        if n > 0 {
            lemma_fundamental_div_mod(m, n);
            let q = m / n;
            if q < s {
                lemma_mul_inequality(q + 1, s, n);
                lemma_mul_is_distributive_add(n, q, 1);
                assert(n * (q + 1) == (q + 1) * n) by (nonlinear_arith);
                assert(n * s == s * n) by (nonlinear_arith);
            } else {
                lemma_mul_inequality(s, q, n);
                assert(n * s == s * n) by (nonlinear_arith);
                assert(n * q == q * n) by (nonlinear_arith);
            }
        }
        if nmemb < MUL_NO_OVERFLOW && size < MUL_NO_OVERFLOW {
            lemma_mul_no_overflow_square();
            let k = MUL_NO_OVERFLOW as int;
            assert(n * s <= (k - 1) * (k - 1)) by (nonlinear_arith)
                requires 0 <= n < k, 0 <= s < k;
            assert((k - 1) * (k - 1) < k * k) by (nonlinear_arith)
                requires k >= 1;
        }
    }
    r
}

/// What a call of `reallocarray(ptr, nmemb, size)` does with the block it is given.
pub enum ReallocPlan {
    /// `nmemb * size` does not fit in a `usize`: `errno` becomes `ENOMEM`, the result is null
    /// and the block is left as it was.
    Overflow,
    /// One of the factors is zero: the result is null and the block is left as it was.
    NoAllocation,
    /// The block is resized to this many bytes with `realloc`.
    Resize(usize),
}

/// Decides what reallocating an array of `nmemb` elements of `size` bytes does.
pub fn reallocarray_plan(nmemb: usize, size: usize) -> (p: ReallocPlan)
    ensures
        match p {
            ReallocPlan::Overflow => nmemb as int * size as int > usize::MAX as int,
            ReallocPlan::NoAllocation => nmemb as int * size as int <= usize::MAX as int
                && (nmemb == 0 || size == 0),
            ReallocPlan::Resize(total) => nmemb as int * size as int <= usize::MAX as int
                && nmemb > 0 && size > 0 && total as int == nmemb as int * size as int,
        },
{
    if reallocarray_overflow(nmemb, size) {
        return ReallocPlan::Overflow;
    }
    if size == 0 || nmemb == 0 {
        return ReallocPlan::NoAllocation;
    }
    ReallocPlan::Resize(size * nmemb)
}

} // verus!
