//! Bit and address-rounding helpers shared by all components.
use vstd::prelude::*;
use vstd::arithmetic::power2::pow2;
use vstd::arithmetic::div_mod::lemma_fundamental_div_mod;
use vstd::bits::{
    lemma_u32_shl_is_mul, lemma_u32_shr_is_div, lemma_u64_shl_is_mul, lemma_u64_shr_is_div,
    lemma_usize_shl_is_mul, lemma_usize_shr_is_div,
};

verus! {

/// `x` rounded down to the nearest multiple of `2^b`.
pub open spec fn spec_round_down(x: int, b: nat) -> int {
    (x / pow2(b) as int) * pow2(b) as int
}

/// `x` rounded up to the nearest multiple of `2^b` (for `x >= 1`).
pub open spec fn spec_round_up(x: int, b: nat) -> int {
    ((x - 1) / pow2(b) as int + 1) * pow2(b) as int
}

/// Rounding down never grows a non-negative value, and stays within `2^b` of it.
pub proof fn lemma_round_down_bounds(x: int, b: nat)
    requires
        x >= 0,
    ensures
        spec_round_down(x, b) <= x < spec_round_down(x, b) + pow2(b),
{
    let d = pow2(b) as int;
    vstd::arithmetic::power2::lemma_pow2_pos(b);
    lemma_fundamental_div_mod(x, d);
    vstd::arithmetic::div_mod::lemma_mod_bound(x, d);
    assert(x == d * (x / d) + x % d);
    assert(0 <= x % d < d);
    assert(spec_round_down(x, b) == (x / d) * d);
}

/// Rounding up never shrinks a positive value, and stays within `2^b` of it;
/// the result is never negative.
pub proof fn lemma_round_up_bounds(x: int, b: nat)
    requires
        x >= 1,
    ensures
        x <= spec_round_up(x, b) < x + pow2(b),
        spec_round_up(x, b) >= 0,
{
    let d = pow2(b) as int;
    vstd::arithmetic::power2::lemma_pow2_pos(b);
    lemma_fundamental_div_mod(x - 1, d);
    vstd::arithmetic::div_mod::lemma_mod_bound(x - 1, d);
    assert(x - 1 == d * ((x - 1) / d) + (x - 1) % d);
    assert(0 <= (x - 1) % d < d);
    vstd::arithmetic::mul::lemma_mul_is_distributive_add_other_way(d, (x - 1) / d, 1);
    assert(spec_round_up(x, b) == ((x - 1) / d) * d + d);
}

/// `1 << n` as a `usize`.
pub fn bit_usize(n: u32) -> (r: usize)
    requires
        n < usize::BITS,
    ensures
        r == pow2(n as nat),
{
    proof {
        vstd::bits::lemma_usize_pow2_no_overflow(n as nat);
        lemma_usize_shl_is_mul(1, n as usize);
    }
    1usize << (n as usize)
}

/// `1 << n` as a `u32`.
pub fn bit_u32(n: u32) -> (r: u32)
    requires
        n < 32,
    ensures
        r == pow2(n as nat),
{
    proof {
        vstd::bits::lemma_u32_pow2_no_overflow(n as nat);
        lemma_u32_shl_is_mul(1, n);
    }
    1u32 << n
}

/// `1 << n` as a `u64`.
pub fn bit_u64(n: u32) -> (r: u64)
    requires
        n < 64,
    ensures
        r == pow2(n as nat),
{
    proof {
        vstd::bits::lemma_u64_pow2_no_overflow(n as nat);
        lemma_u64_shl_is_mul(1, n as u64);
    }
    1u64 << (n as u64)
}

/// Power-of-two construction and rounding on the integer types that carry
/// addresses through the boot pipeline.
pub trait NumUtils: Sized {
    /// The width of the type in bits.
    spec fn bits() -> u32;

    /// The largest value of the type.
    spec fn max_num() -> int;

    /// The value as a mathematical integer.
    spec fn as_num(self) -> int;

    /// `2^n`.
    fn bit(n: u32) -> (r: Self)
        requires
            n < Self::bits(),
        ensures
            r.as_num() == pow2(n as nat),
    ;

    /// Round `self` down to the nearest boundary of `b` bits, zeroing the low
    /// `b` bits.
    fn round_down(self, b: u32) -> (r: Self)
        requires
            b < Self::bits(),
        ensures
            r.as_num() == spec_round_down(self.as_num(), b as nat),
    ;

    /// Round `self` up to the nearest boundary of `b` bits.
    fn round_up(self, b: u32) -> (r: Self)
        requires
            b < Self::bits(),
            self.as_num() >= 1,
            spec_round_up(self.as_num(), b as nat) <= Self::max_num(),
        ensures
            r.as_num() == spec_round_up(self.as_num(), b as nat),
    ;
}

impl NumUtils for u64 {
    open spec fn bits() -> u32 {
        64
    }

    open spec fn max_num() -> int {
        u64::MAX as int
    }

    open spec fn as_num(self) -> int {
        self as int
    }

    fn bit(n: u32) -> (r: u64)
        ensures
            r.as_num() == pow2(n as nat),
    {
        bit_u64(n)
    }

    fn round_down(self, b: u32) -> (r: u64)
        ensures
            r.as_num() == spec_round_down(self as int, b as nat),
    {
        proof {
            vstd::bits::lemma_u64_pow2_no_overflow(b as nat);
            lemma_u64_shr_is_div(self, b as u64);
            lemma_fundamental_div_mod(self as int, pow2(b as nat) as int);
            lemma_u64_shl_is_mul((self >> (b as u64)), b as u64);
        }
        (self >> (b as u64)) << (b as u64)
    }

    fn round_up(self, b: u32) -> (r: u64)
        ensures
            r.as_num() == spec_round_up(self as int, b as nat),
    {
        proof {
            vstd::bits::lemma_u64_pow2_no_overflow(b as nat);
            lemma_u64_shr_is_div((self - 1) as u64, b as u64);
            lemma_fundamental_div_mod((self - 1) as int, pow2(b as nat) as int);
            lemma_u64_shl_is_mul((((self - 1) as u64 >> (b as u64)) + 1) as u64, b as u64);
        }
        (((self - 1) >> (b as u64)) + 1) << (b as u64)
    }
}

impl NumUtils for u32 {
    open spec fn bits() -> u32 {
        32
    }

    open spec fn max_num() -> int {
        u32::MAX as int
    }

    open spec fn as_num(self) -> int {
        self as int
    }

    fn bit(n: u32) -> (r: u32)
        ensures
            r.as_num() == pow2(n as nat),
    {
        bit_u32(n)
    }

    fn round_down(self, b: u32) -> (r: u32)
        ensures
            r.as_num() == spec_round_down(self as int, b as nat),
    {
        proof {
            vstd::bits::lemma_u32_pow2_no_overflow(b as nat);
            lemma_u32_shr_is_div(self, b);
            lemma_fundamental_div_mod(self as int, pow2(b as nat) as int);
            lemma_u32_shl_is_mul((self >> b), b);
        }
        (self >> b) << b
    }

    fn round_up(self, b: u32) -> (r: u32)
        ensures
            r.as_num() == spec_round_up(self as int, b as nat),
    {
        proof {
            vstd::bits::lemma_u32_pow2_no_overflow(b as nat);
            lemma_u32_shr_is_div((self - 1) as u32, b);
            lemma_fundamental_div_mod((self - 1) as int, pow2(b as nat) as int);
            lemma_u32_shl_is_mul((((self - 1) as u32 >> b) + 1) as u32, b);
        }
        (((self - 1) >> b) + 1) << b
    }
}

impl NumUtils for usize {
    open spec fn bits() -> u32 {
        usize::BITS
    }

    open spec fn max_num() -> int {
        usize::MAX as int
    }

    open spec fn as_num(self) -> int {
        self as int
    }

    fn bit(n: u32) -> (r: usize)
        ensures
            r.as_num() == pow2(n as nat),
    {
        bit_usize(n)
    }

    fn round_down(self, b: u32) -> (r: usize)
        ensures
            r.as_num() == spec_round_down(self as int, b as nat),
    {
        proof {
            vstd::bits::lemma_usize_pow2_no_overflow(b as nat);
            lemma_usize_shr_is_div(self, b as usize);
            lemma_fundamental_div_mod(self as int, pow2(b as nat) as int);
            lemma_usize_shl_is_mul((self >> (b as usize)), b as usize);
        }
        (self >> (b as usize)) << (b as usize)
    }

    fn round_up(self, b: u32) -> (r: usize)
        ensures
            r.as_num() == spec_round_up(self as int, b as nat),
    {
        proof {
            vstd::bits::lemma_usize_pow2_no_overflow(b as nat);
            lemma_usize_shr_is_div((self - 1) as usize, b as usize);
            lemma_fundamental_div_mod((self - 1) as int, pow2(b as nat) as int);
            lemma_usize_shl_is_mul((((self - 1) as usize >> (b as usize)) + 1) as usize, b as usize);
        }
        (((self - 1) >> (b as usize)) + 1) << (b as usize)
    }
}

} // verus!
