//! A 256-bit unsigned integer with saturating arithmetic.
//!
//! The fee formula works on values read from an on-chain oracle, which are
//! 256-bit words. Values are kept as four 64-bit limbs, least significant
//! first; every operation's contract speaks about the mathematical value
//! [`U256::as_nat`].

use vstd::prelude::*;
use vstd::arithmetic::div_mod::lemma_fundamental_div_mod;
use vstd::arithmetic::mul::{
    lemma_mul_is_distributive_add,
    lemma_mul_is_distributive_add_other_way,
    lemma_mul_is_associative,
    lemma_mul_is_commutative,
};

verus! {

/// The largest value a [`U256`] can hold, 2^256 - 1.
pub open spec fn u256_max_nat() -> nat {
    0xffff_ffff_ffff_ffff_ffff_ffff_ffff_ffff_ffff_ffff_ffff_ffff_ffff_ffff_ffff_ffffnat
}

/// The mathematical value of `x`, clamped to what a 256-bit word can hold.
pub open spec fn clamp_u256(x: nat) -> nat {
    if x > u256_max_nat() {
        u256_max_nat()
    } else {
        x
    }
}

/// The value of a byte sequence read as a big-endian unsigned integer.
pub open spec fn be_bytes_nat(s: Seq<u8>) -> nat
    decreases s.len(),
{
    if s.len() == 0 {
        0
    } else {
        (be_bytes_nat(s.drop_last()) * 256 + s.last()) as nat
    }
}

/// 256 raised to the `k`-th power: the number of values `k` bytes can take.
pub open spec fn p8k(k: nat) -> nat
    decreases k,
{
    if k == 0 {
        1
    } else {
        256 * p8k((k - 1) as nat)
    }
}

proof fn lemma_p8k_mono(i: nat, j: nat)
    requires
        i <= j,
    ensures
        p8k(i) <= p8k(j),
    decreases j,
{
    if i < j {
        lemma_p8k_mono(i, (j - 1) as nat);
        assert(p8k(j) == 256 * p8k((j - 1) as nat));
    }
}

proof fn lemma_p8k_32()
    ensures
        p8k(32)
            == 0x1_0000_0000_0000_0000_0000_0000_0000_0000_0000_0000_0000_0000_0000_0000_0000_0000nat,
{
    reveal_with_fuel(p8k, 33);
}

/// An unsigned 256-bit integer, stored as four 64-bit limbs with `l0` least
/// significant.
#[derive(Debug, Clone, Copy, PartialEq, Eq, Hash, Structural)]
pub struct U256 {
    pub l0: u64,
    pub l1: u64,
    pub l2: u64,
    pub l3: u64,
}

/// Multiplies two limbs and adds a limb and a carry; the exact result fits
/// in 128 bits and is returned split into a low and a high limb.
fn mac(a: u64, b: u64, acc: u64, carry: u64) -> (r: (u64, u64))
    ensures
        r.0 + r.1 * 0x1_0000_0000_0000_0000 == a * b + acc + carry,
{
    proof {
        assert((a as nat) * (b as nat) <= 0xffff_ffff_ffff_ffff * 0xffff_ffff_ffff_ffff)
            by (nonlinear_arith)
            requires
                a <= 0xffff_ffff_ffff_ffffu64,
                b <= 0xffff_ffff_ffff_ffffu64,
        ;
    }
    let t: u128 = (a as u128) * (b as u128) + (acc as u128) + (carry as u128);
    let lo: u64 = (t % 0x1_0000_0000_0000_0000u128) as u64;
    let hi: u64 = (t / 0x1_0000_0000_0000_0000u128) as u64;
    proof {
        lemma_fundamental_div_mod(t as int, 0x1_0000_0000_0000_0000int);
    }
    (lo, hi)
}

/// Adds two limbs and an incoming carry, returning the low limb and the
/// outgoing carry (zero or one).
fn adc(a: u64, b: u64, carry: u64) -> (r: (u64, u64))
    requires
        carry <= 1,
    ensures
        r.0 + r.1 * 0x1_0000_0000_0000_0000 == a + b + carry,
        r.1 <= 1,
{
    let t: u128 = (a as u128) + (b as u128) + (carry as u128);
    let lo: u64 = (t % 0x1_0000_0000_0000_0000u128) as u64;
    let hi: u64 = (t / 0x1_0000_0000_0000_0000u128) as u64;
    proof {
        lemma_fundamental_div_mod(t as int, 0x1_0000_0000_0000_0000int);
    }
    (lo, hi)
}

/// A two-digit by two-digit product, written out digit by digit; `k` is the
/// weight of the high digit.
proof fn lemma_mul_2x2(x0: nat, x1: nat, y0: nat, y1: nat, k: nat)
    ensures
        (x0 + x1 * k) * (y0 + y1 * k) == x0 * y0 + (x0 * y1 + x1 * y0) * k + (x1 * y1) * (k * k),
{
    let s: nat = (x0 + x1 * k) as nat;
    lemma_mul_is_distributive_add(s as int, y0 as int, (y1 * k) as int);
    assert(s * ((y0 + y1 * k) as nat) == s * y0 + s * (y1 * k));
    lemma_mul_is_distributive_add_other_way(y0 as int, x0 as int, (x1 * k) as int);
    assert(s * y0 == x0 * y0 + (x1 * k) * y0);
    lemma_mul_is_associative(x1 as int, k as int, y0 as int);
    lemma_mul_is_commutative(k as int, y0 as int);
    lemma_mul_is_associative(x1 as int, y0 as int, k as int);
    assert((x1 * k) * y0 == (x1 * y0) * k);
    lemma_mul_is_distributive_add_other_way((y1 * k) as int, x0 as int, (x1 * k) as int);
    assert(s * (y1 * k) == x0 * (y1 * k) + (x1 * k) * (y1 * k));
    lemma_mul_is_associative(x0 as int, y1 as int, k as int);
    assert(x0 * (y1 * k) == (x0 * y1) * k);
    lemma_mul_is_associative(x1 as int, k as int, (y1 * k) as int);
    lemma_mul_is_associative(k as int, y1 as int, k as int);
    lemma_mul_is_commutative(k as int, y1 as int);
    assert(k * (y1 * k) == (y1 * k) * k);
    lemma_mul_is_associative(y1 as int, k as int, k as int);
    assert((y1 * k) * k == y1 * (k * k));
    lemma_mul_is_associative(x1 as int, y1 as int, (k * k) as int);
    assert(x1 * (y1 * (k * k)) == (x1 * y1) * (k * k));
    assert((x1 * k) * (y1 * k) == x1 * (k * (y1 * k)));
    assert((x1 * k) * (y1 * k) == (x1 * y1) * (k * k));
    lemma_mul_is_distributive_add_other_way(k as int, (x0 * y1) as int, (x1 * y0) as int);
    assert((x0 * y1 + x1 * y0) * k == (x0 * y1) * k + (x1 * y0) * k);
}

/// Multiplying a symbolic value by a power of 2^64 written as a literal.
proof fn lemma_mul_scale(x: nat, y: nat, k: nat)
    ensures
        (x + y) * k == x * k + y * k,
{
    lemma_mul_is_distributive_add_other_way(k as int, x as int, y as int);
}

/// The product of two four-limb values, written out digit by digit.
proof fn lemma_mul_digits(a0: u64, a1: u64, a2: u64, a3: u64, b0: u64, b1: u64, b2: u64, b3: u64)
    ensures
        (a0 + a1 * 0x1_0000_0000_0000_0000 + a2 * 0x1_0000_0000_0000_0000_0000_0000_0000_0000 + a3
            * 0x1_0000_0000_0000_0000_0000_0000_0000_0000_0000_0000_0000_0000) * (b0 + b1
            * 0x1_0000_0000_0000_0000 + b2 * 0x1_0000_0000_0000_0000_0000_0000_0000_0000 + b3
            * 0x1_0000_0000_0000_0000_0000_0000_0000_0000_0000_0000_0000_0000) == a0 * b0 + (a0
            * b1 + a1 * b0) * 0x1_0000_0000_0000_0000 + (a0 * b2 + a1 * b1 + a2 * b0)
            * 0x1_0000_0000_0000_0000_0000_0000_0000_0000 + (a0 * b3 + a1 * b2 + a2 * b1 + a3 * b0)
            * 0x1_0000_0000_0000_0000_0000_0000_0000_0000_0000_0000_0000_0000 + (a1 * b3 + a2 * b2
            + a3 * b1)
            * 0x1_0000_0000_0000_0000_0000_0000_0000_0000_0000_0000_0000_0000_0000_0000_0000_0000
            + (a2 * b3 + a3 * b2)
            * 0x1_0000_0000_0000_0000_0000_0000_0000_0000_0000_0000_0000_0000_0000_0000_0000_0000_0000_0000_0000_0000
            + (a3 * b3)
            * 0x1_0000_0000_0000_0000_0000_0000_0000_0000_0000_0000_0000_0000_0000_0000_0000_0000_0000_0000_0000_0000_0000_0000_0000_0000,
{
    let k: nat = 0x1_0000_0000_0000_0000nat;
    let k2: nat = 0x1_0000_0000_0000_0000_0000_0000_0000_0000nat;
    let al: nat = (a0 + a1 * k) as nat;
    let ah: nat = (a2 + a3 * k) as nat;
    let bl: nat = (b0 + b1 * k) as nat;
    let bh: nat = (b2 + b3 * k) as nat;
    let av: nat = (a0 + a1 * 0x1_0000_0000_0000_0000 + a2
        * 0x1_0000_0000_0000_0000_0000_0000_0000_0000 + a3
        * 0x1_0000_0000_0000_0000_0000_0000_0000_0000_0000_0000_0000_0000) as nat;
    let bv: nat = (b0 + b1 * 0x1_0000_0000_0000_0000 + b2
        * 0x1_0000_0000_0000_0000_0000_0000_0000_0000 + b3
        * 0x1_0000_0000_0000_0000_0000_0000_0000_0000_0000_0000_0000_0000) as nat;
    lemma_mul_scale(a2 as nat, (a3 * k) as nat, k2);
    lemma_mul_is_associative(a3 as int, k as int, k2 as int);
    assert(av == al + ah * k2);
    lemma_mul_scale(b2 as nat, (b3 * k) as nat, k2);
    lemma_mul_is_associative(b3 as int, k as int, k2 as int);
    assert(bv == bl + bh * k2);
    lemma_mul_2x2(al, ah, bl, bh, k2);
    assert(av * bv == al * bl + (al * bh + ah * bl) * k2 + (ah * bh) * (k2 * k2));
    lemma_mul_2x2(a0 as nat, a1 as nat, b0 as nat, b1 as nat, k);
    assert(al * bl == a0 * b0 + (a0 * b1 + a1 * b0) * k + (a1 * b1) * (k * k));
    lemma_mul_2x2(a0 as nat, a1 as nat, b2 as nat, b3 as nat, k);
    assert(al * bh == a0 * b2 + (a0 * b3 + a1 * b2) * k + (a1 * b3) * (k * k));
    lemma_mul_2x2(a2 as nat, a3 as nat, b0 as nat, b1 as nat, k);
    assert(ah * bl == a2 * b0 + (a2 * b1 + a3 * b0) * k + (a3 * b1) * (k * k));
    lemma_mul_2x2(a2 as nat, a3 as nat, b2 as nat, b3 as nat, k);
    assert(ah * bh == a2 * b2 + (a2 * b3 + a3 * b2) * k + (a3 * b3) * (k * k));
    lemma_mul_scale((al * bh) as nat, (ah * bl) as nat, k2);
    // Scale each expanded half-product by its weight, one addend at a time.
    lemma_mul_scale((a0 * b2 + (a0 * b3 + a1 * b2) * k) as nat, ((a1 * b3) * (k * k)) as nat, k2);
    lemma_mul_scale((a0 * b2) as nat, ((a0 * b3 + a1 * b2) * k) as nat, k2);
    lemma_mul_is_associative((a0 * b3 + a1 * b2) as int, k as int, k2 as int);
    lemma_mul_is_associative((a1 * b3) as int, (k * k) as int, k2 as int);
    lemma_mul_scale((a2 * b0 + (a2 * b1 + a3 * b0) * k) as nat, ((a3 * b1) * (k * k)) as nat, k2);
    lemma_mul_scale((a2 * b0) as nat, ((a2 * b1 + a3 * b0) * k) as nat, k2);
    lemma_mul_is_associative((a2 * b1 + a3 * b0) as int, k as int, k2 as int);
    lemma_mul_is_associative((a3 * b1) as int, (k * k) as int, k2 as int);
    lemma_mul_scale((a2 * b2 + (a2 * b3 + a3 * b2) * k) as nat, ((a3 * b3) * (k * k)) as nat, (k2
        * k2) as nat);
    lemma_mul_scale((a2 * b2) as nat, ((a2 * b3 + a3 * b2) * k) as nat, (k2 * k2) as nat);
    lemma_mul_is_associative((a2 * b3 + a3 * b2) as int, k as int, (k2 * k2) as int);
    lemma_mul_is_associative((a3 * b3) as int, (k * k) as int, (k2 * k2) as int);
}

impl U256 {
    /// The mathematical value represented by the four limbs.
    pub open spec fn as_nat(self) -> nat {
        (self.l0 + self.l1 * 0x1_0000_0000_0000_0000 + self.l2
            * 0x1_0000_0000_0000_0000_0000_0000_0000_0000 + self.l3
            * 0x1_0000_0000_0000_0000_0000_0000_0000_0000_0000_0000_0000_0000) as nat
    }

    /// The zero value.
    pub fn zero() -> (r: U256)
        ensures
            r.as_nat() == 0,
    {
        U256 { l0: 0, l1: 0, l2: 0, l3: 0 }
    }

    /// Widens a 64-bit value.
    pub fn from_u64(x: u64) -> (r: U256)
        ensures
            r.as_nat() == x,
    {
        U256 { l0: x, l1: 0, l2: 0, l3: 0 }
    }

    /// Widens a 128-bit value.
    pub fn from_u128(x: u128) -> (r: U256)
        ensures
            r.as_nat() == x,
    {
        let lo: u64 = (x % 0x1_0000_0000_0000_0000u128) as u64;
        let hi: u64 = (x / 0x1_0000_0000_0000_0000u128) as u64;
        proof {
            lemma_fundamental_div_mod(x as int, 0x1_0000_0000_0000_0000int);
        }
        U256 { l0: lo, l1: hi, l2: 0, l3: 0 }
    }

    /// The largest representable value.
    pub fn max_value() -> (r: U256)
        ensures
            r.as_nat() == u256_max_nat(),
    {
        U256 {
            l0: 0xffff_ffff_ffff_ffff,
            l1: 0xffff_ffff_ffff_ffff,
            l2: 0xffff_ffff_ffff_ffff,
            l3: 0xffff_ffff_ffff_ffff,
        }
    }

    /// Shifts the value up by one byte and brings `b` in as the new lowest
    /// byte; the caller guarantees the result still fits.
    fn shl8_or(self, b: u8) -> (r: U256)
        requires
            self.as_nat() * 256 + b
                < 0x1_0000_0000_0000_0000_0000_0000_0000_0000_0000_0000_0000_0000_0000_0000_0000_0000nat,
        ensures
            r.as_nat() == self.as_nat() * 256 + b,
    {
        let t0: u128 = (self.l0 as u128) * 256 + (b as u128);
        let r0: u64 = (t0 % 0x1_0000_0000_0000_0000u128) as u64;
        let c0: u64 = (t0 / 0x1_0000_0000_0000_0000u128) as u64;
        let t1: u128 = (self.l1 as u128) * 256 + (c0 as u128);
        let r1: u64 = (t1 % 0x1_0000_0000_0000_0000u128) as u64;
        let c1: u64 = (t1 / 0x1_0000_0000_0000_0000u128) as u64;
        let t2: u128 = (self.l2 as u128) * 256 + (c1 as u128);
        let r2: u64 = (t2 % 0x1_0000_0000_0000_0000u128) as u64;
        let c2: u64 = (t2 / 0x1_0000_0000_0000_0000u128) as u64;
        let t3: u128 = (self.l3 as u128) * 256 + (c2 as u128);
        let r3: u64 = (t3 % 0x1_0000_0000_0000_0000u128) as u64;
        let c3: u64 = (t3 / 0x1_0000_0000_0000_0000u128) as u64;
        proof {
            lemma_fundamental_div_mod(t0 as int, 0x1_0000_0000_0000_0000int);
            lemma_fundamental_div_mod(t1 as int, 0x1_0000_0000_0000_0000int);
            lemma_fundamental_div_mod(t2 as int, 0x1_0000_0000_0000_0000int);
            lemma_fundamental_div_mod(t3 as int, 0x1_0000_0000_0000_0000int);
        }
        U256 { l0: r0, l1: r1, l2: r2, l3: r3 }
    }

    /// Reads up to 32 bytes as a big-endian unsigned integer; shorter input
    /// counts as if it were left-padded with zeros.
    pub fn from_be_slice(bytes: &[u8]) -> (r: U256)
        requires
            bytes@.len() <= 32,
        ensures
            r.as_nat() == be_bytes_nat(bytes@),
    {
        let n: usize = bytes.len();
        let mut r = U256::zero();
        let mut i: usize = 0;
        proof {
            assert(bytes@.take(0) =~= Seq::<u8>::empty());
        }
        while i < n
            invariant
                i <= n,
                n == bytes@.len() <= 32,
                r.as_nat() == be_bytes_nat(bytes@.take(i as int)),
                r.as_nat() < p8k(i as nat),
            decreases n - i,
        {
            let b = bytes[i];
            proof {
                lemma_p8k_mono(i as nat, 31);
                lemma_p8k_32();
                assert(p8k(32) == 256 * p8k(31));
                assert(r.as_nat() * 256 + b < 256 * p8k(i as nat));
            }
            let r2 = r.shl8_or(b);
            proof {
                assert(bytes@.take(i + 1).drop_last() =~= bytes@.take(i as int));
                assert(bytes@.take(i + 1).last() == bytes@[i as int]);
                assert(p8k((i + 1) as nat) == 256 * p8k(i as nat));
            }
            r = r2;
            i = i + 1;
        }
        proof {
            assert(bytes@.take(n as int) =~= bytes@);
        }
        r
    }

    /// Adds, clamping at the largest representable value.
    pub fn saturating_add(self, other: U256) -> (r: U256)
        ensures
            r.as_nat() == clamp_u256(self.as_nat() + other.as_nat()),
    {
        let (s0, c0) = adc(self.l0, other.l0, 0);
        let (s1, c1) = adc(self.l1, other.l1, c0);
        let (s2, c2) = adc(self.l2, other.l2, c1);
        let (s3, c3) = adc(self.l3, other.l3, c2);
        if c3 != 0 {
            Self::max_value()
        } else {
            U256 { l0: s0, l1: s1, l2: s2, l3: s3 }
        }
    }

    /// Multiplies, clamping at the largest representable value.
    pub fn saturating_mul(self, other: U256) -> (r: U256)
        ensures
            r.as_nat() == clamp_u256(self.as_nat() * other.as_nat()),
    {
        let (a0, a1, a2, a3) = (self.l0, self.l1, self.l2, self.l3);
        let (b0, b1, b2, b3) = (other.l0, other.l1, other.l2, other.l3);
        // Schoolbook multiplication: one row per limb of `other`, keeping
        // the eight digits of the full 512-bit product.
        let (e0, c01) = mac(a0, b0, 0, 0);
        let (f1, c02) = mac(a1, b0, 0, c01);
        let (f2, c03) = mac(a2, b0, 0, c02);
        let (f3, c04) = mac(a3, b0, 0, c03);
        let (e1, c11) = mac(a0, b1, f1, 0);
        let (g2, c12) = mac(a1, b1, f2, c11);
        let (g3, c13) = mac(a2, b1, f3, c12);
        let (g4, c14) = mac(a3, b1, c04, c13);
        let (e2, c21) = mac(a0, b2, g2, 0);
        let (h3, c22) = mac(a1, b2, g3, c21);
        let (h4, c23) = mac(a2, b2, g4, c22);
        let (h5, c24) = mac(a3, b2, c14, c23);
        let (e3, c31) = mac(a0, b3, h3, 0);
        let (e4, c32) = mac(a1, b3, h4, c31);
        let (e5, c33) = mac(a2, b3, h5, c32);
        let (e6, c34) = mac(a3, b3, c24, c33);
        let e7 = c34;
        proof {
            lemma_mul_digits(a0, a1, a2, a3, b0, b1, b2, b3);
            assert(e0 + e1 * 0x1_0000_0000_0000_0000 + e2
                * 0x1_0000_0000_0000_0000_0000_0000_0000_0000 + e3
                * 0x1_0000_0000_0000_0000_0000_0000_0000_0000_0000_0000_0000_0000 + e4
                * 0x1_0000_0000_0000_0000_0000_0000_0000_0000_0000_0000_0000_0000_0000_0000_0000_0000
                + e5
                * 0x1_0000_0000_0000_0000_0000_0000_0000_0000_0000_0000_0000_0000_0000_0000_0000_0000_0000_0000_0000_0000
                + e6
                * 0x1_0000_0000_0000_0000_0000_0000_0000_0000_0000_0000_0000_0000_0000_0000_0000_0000_0000_0000_0000_0000_0000_0000_0000_0000
                + e7
                * 0x1_0000_0000_0000_0000_0000_0000_0000_0000_0000_0000_0000_0000_0000_0000_0000_0000_0000_0000_0000_0000_0000_0000_0000_0000_0000_0000_0000_0000
                == self.as_nat() * other.as_nat());
        }
        if e4 != 0 || e5 != 0 || e6 != 0 || e7 != 0 {
            Self::max_value()
        } else {
            U256 { l0: e0, l1: e1, l2: e2, l3: e3 }
        }
    }
}

} // verus!
