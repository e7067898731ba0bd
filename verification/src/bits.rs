//! Widths of fields whose size is `Ceil(Log2(...))` of another value.
use vstd::prelude::*;
use vstd::arithmetic::power2::{lemma2_to64, lemma_pow2_unfold, pow2};

verus! {

/// `Ceil(Log2(x))` for `x >= 1`: 0 for 1, else one more than for `Ceil(x / 2)`.
pub open spec fn ceil_log2(x: nat) -> nat
    decreases x,
{
    if x <= 1 {
        0
    } else {
        1 + ceil_log2(((x + 1) / 2) as nat)
    }
}

/// `Ceil(Log2(x))` is the least `k` with `x <= 2^k`.
pub proof fn lemma_ceil_log2_is_least_power(x: nat)
    requires
        x >= 1,
    ensures
        x <= pow2(ceil_log2(x)),
        ceil_log2(x) == 0 || pow2((ceil_log2(x) - 1) as nat) < x,
    decreases x,
{
    if x <= 1 {
        lemma2_to64();
    } else {
        let y = ((x + 1) / 2) as nat;
        lemma_ceil_log2_is_least_power(y);
        let r = ceil_log2(y);
        lemma_pow2_unfold(r + 1);
        assert(pow2(r + 1) == 2 * pow2(r));
        if r > 0 {
            lemma_pow2_unfold(r);
            assert(pow2(r) == 2 * pow2((r - 1) as nat));
        } else {
            lemma2_to64();
        }
    }
}

proof fn lemma_ceil_log2_at_most(x: nat, n: nat)
    requires
        1 <= x <= pow2(n),
    ensures
        ceil_log2(x) <= n,
    decreases n,
{
    if x > 1 {
        if n == 0 {
            lemma2_to64();
        } else {
            lemma_pow2_unfold(n);
            lemma_ceil_log2_at_most(((x + 1) / 2) as nat, (n - 1) as nat);
        }
    }
}

/// `Ceil(Log2(x))`, as the bit width of a field.
pub fn ceil_log2_u64(x: u64) -> (k: u32)
    ensures
        k as nat == ceil_log2(x as nat),
        k <= 64,
    decreases x,
{
    if x <= 1 {
        0
    } else {
        let half = x / 2 + x % 2;
        assert(half as nat == ((x + 1) / 2) as nat);
        proof {
            lemma2_to64();
            lemma_ceil_log2_at_most(x as nat, 64);
        }
        1 + ceil_log2_u64(half)
    }
}

/// The width of `slice_group_change_cycle`:
/// `Ceil(Log2(PicSizeInMapUnits ÷ SliceGroupChangeRate + 1))`, where `÷` is
/// exact division. It equals `Ceil(Log2(Ceil(size / rate) + 1))`.
pub open spec fn change_cycle_bits(pic_size: nat, rate: nat) -> nat {
    ceil_log2((((pic_size + rate - 1) as nat) / rate + 1) as nat)
}

pub fn slice_group_change_cycle_bits(pic_size: u64, rate: u64) -> (k: u32)
    requires
        rate >= 1,
        pic_size <= u32::MAX,
        rate <= u32::MAX + 1,
    ensures
        k as nat == change_cycle_bits(pic_size as nat, rate as nat),
{
    let q = (pic_size + rate - 1) / rate;
    ceil_log2_u64(q + 1)
}

} // verus!
