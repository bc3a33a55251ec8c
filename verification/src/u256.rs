//! A 256-bit unsigned integer built from four 64-bit limbs, with checked
//! arithmetic.  Overflow and underflow always yield an explicit absence of
//! result, never a wraparound.

use vstd::prelude::*;
use vstd::arithmetic::div_mod::lemma_fundamental_div_mod;
use vstd::arithmetic::div_mod::lemma_mod_bound;
use vstd::arithmetic::div_mod::lemma_div_denominator;
use vstd::arithmetic::div_mod::lemma_fundamental_div_mod_converse_div;
use vstd::arithmetic::div_mod::lemma_fundamental_div_mod_converse_mod;

verus! {

broadcast use vstd::array::group_array_axioms;

/// Fields are declared most-significant first so that the derived
/// lexicographic ordering agrees with the numeric ordering.
#[derive(Debug, PartialEq, Eq, Structural, PartialOrd, Ord, Copy, Clone)]
pub struct U256 {
    n3: u64,
    n2: u64,
    n1: u64,
    n0: u64,
}

impl U256 {
    /// The number this value denotes: `n0` is the least significant limb.
    pub closed spec fn as_nat(self) -> nat {
        self.n0 as nat
            + self.n1 as nat * 0x10000000000000000
            + self.n2 as nat * 0x100000000000000000000000000000000
            + self.n3 as nat * 0x1000000000000000000000000000000000000000000000000
    }

    pub fn zero() -> (r: Self)
        ensures
            r.as_nat() == 0,
    {
        U256 { n3: 0, n2: 0, n1: 0, n0: 0 }
    }

    pub fn from_u64(v: u64) -> (r: Self)
        ensures
            r.as_nat() == v as nat,
    {
        U256 { n3: 0, n2: 0, n1: 0, n0: v }
    }

    pub fn is_zero(&self) -> (r: bool)
        ensures
            r <==> self.as_nat() == 0,
    {
        self.n0 == 0 && self.n1 == 0 && self.n2 == 0 && self.n3 == 0
    }

    pub fn as_u64(&self) -> (r: u64)
        requires
            self.as_nat() < 0x10000000000000000,
        ensures
            r as nat == self.as_nat(),
    {
        self.n0
    }

    pub fn checked_add(self, other: Self) -> (r: Option<Self>)
        ensures
            r is Some <==> self.as_nat() + other.as_nat()
                < 0x10000000000000000000000000000000000000000000000000000000000000000,
            r is Some ==> r->Some_0.as_nat() == self.as_nat() + other.as_nat(),
    {
        let s0: u128 = self.n0 as u128 + other.n0 as u128;
        let r0: u64 = (s0 % 0x10000000000000000) as u64;
        let c0: u128 = s0 / 0x10000000000000000;
        let s1: u128 = self.n1 as u128 + other.n1 as u128 + c0;
        let r1: u64 = (s1 % 0x10000000000000000) as u64;
        let c1: u128 = s1 / 0x10000000000000000;
        let s2: u128 = self.n2 as u128 + other.n2 as u128 + c1;
        let r2: u64 = (s2 % 0x10000000000000000) as u64;
        let c2: u128 = s2 / 0x10000000000000000;
        let s3: u128 = self.n3 as u128 + other.n3 as u128 + c2;
        let r3: u64 = (s3 % 0x10000000000000000) as u64;
        let c3: u128 = s3 / 0x10000000000000000;
        proof {
            lemma_fundamental_div_mod(s0 as int, 0x10000000000000000);
            lemma_mod_bound(s0 as int, 0x10000000000000000);
            lemma_fundamental_div_mod(s1 as int, 0x10000000000000000);
            lemma_mod_bound(s1 as int, 0x10000000000000000);
            lemma_fundamental_div_mod(s2 as int, 0x10000000000000000);
            lemma_mod_bound(s2 as int, 0x10000000000000000);
            lemma_fundamental_div_mod(s3 as int, 0x10000000000000000);
            lemma_mod_bound(s3 as int, 0x10000000000000000);
        }
        if c3 == 0 {
            Some(U256 { n3: r3, n2: r2, n1: r1, n0: r0 })
        } else {
            None
        }
    }

    pub fn checked_sub(self, other: Self) -> (r: Option<Self>)
        ensures
            r is Some <==> other.as_nat() <= self.as_nat(),
            r is Some ==> r->Some_0.as_nat() == self.as_nat() - other.as_nat(),
    {
        let d0: u128 = 0x10000000000000000 + self.n0 as u128 - other.n0 as u128;
        let r0: u64 = (d0 % 0x10000000000000000) as u64;
        let b0: u128 = 1 - d0 / 0x10000000000000000;
        let d1: u128 = 0x10000000000000000 + self.n1 as u128 - other.n1 as u128 - b0;
        let r1: u64 = (d1 % 0x10000000000000000) as u64;
        let b1: u128 = 1 - d1 / 0x10000000000000000;
        let d2: u128 = 0x10000000000000000 + self.n2 as u128 - other.n2 as u128 - b1;
        let r2: u64 = (d2 % 0x10000000000000000) as u64;
        let b2: u128 = 1 - d2 / 0x10000000000000000;
        let d3: u128 = 0x10000000000000000 + self.n3 as u128 - other.n3 as u128 - b2;
        let r3: u64 = (d3 % 0x10000000000000000) as u64;
        let b3: u128 = 1 - d3 / 0x10000000000000000;
        proof {
            lemma_fundamental_div_mod(d0 as int, 0x10000000000000000);
            lemma_mod_bound(d0 as int, 0x10000000000000000);
            lemma_fundamental_div_mod(d1 as int, 0x10000000000000000);
            lemma_mod_bound(d1 as int, 0x10000000000000000);
            lemma_fundamental_div_mod(d2 as int, 0x10000000000000000);
            lemma_mod_bound(d2 as int, 0x10000000000000000);
            lemma_fundamental_div_mod(d3 as int, 0x10000000000000000);
            lemma_mod_bound(d3 as int, 0x10000000000000000);
        }
        if b3 == 0 {
            Some(U256 { n3: r3, n2: r2, n1: r1, n0: r0 })
        } else {
            None
        }
    }

    /// Multiply by a 64-bit factor, refusing results of 257 bits or more.
    pub fn checked_mul_u64(self, factor: u64) -> (r: Option<Self>)
        ensures
            r is Some <==> self.as_nat() * (factor as nat)
                < 0x10000000000000000000000000000000000000000000000000000000000000000,
            r is Some ==> r->Some_0.as_nat() == self.as_nat() * (factor as nat),
    {
        proof {
            lemma_u64_mul_fits(self.n0, factor);
            lemma_u64_mul_fits(self.n1, factor);
            lemma_u64_mul_fits(self.n2, factor);
            lemma_u64_mul_fits(self.n3, factor);
        }
        let p0: u128 = self.n0 as u128 * factor as u128;
        let r0: u64 = (p0 % 0x10000000000000000) as u64;
        let c0: u128 = p0 / 0x10000000000000000;
        proof {
            lemma_fundamental_div_mod(p0 as int, 0x10000000000000000);
            lemma_mod_bound(p0 as int, 0x10000000000000000);
        }
        let p1: u128 = self.n1 as u128 * factor as u128 + c0;
        let r1: u64 = (p1 % 0x10000000000000000) as u64;
        let c1: u128 = p1 / 0x10000000000000000;
        proof {
            lemma_fundamental_div_mod(p1 as int, 0x10000000000000000);
            lemma_mod_bound(p1 as int, 0x10000000000000000);
        }
        let p2: u128 = self.n2 as u128 * factor as u128 + c1;
        let r2: u64 = (p2 % 0x10000000000000000) as u64;
        let c2: u128 = p2 / 0x10000000000000000;
        proof {
            lemma_fundamental_div_mod(p2 as int, 0x10000000000000000);
            lemma_mod_bound(p2 as int, 0x10000000000000000);
        }
        let p3: u128 = self.n3 as u128 * factor as u128 + c2;
        let r3: u64 = (p3 % 0x10000000000000000) as u64;
        let c3: u128 = p3 / 0x10000000000000000;
        proof {
            lemma_fundamental_div_mod(p3 as int, 0x10000000000000000);
            lemma_mod_bound(p3 as int, 0x10000000000000000);
            lemma_mul_u64_limbs(
                self.n0 as nat,
                self.n1 as nat,
                self.n2 as nat,
                self.n3 as nat,
                factor as nat,
            );
        }
        if c3 == 0 {
            Some(U256 { n3: r3, n2: r2, n1: r1, n0: r0 })
        } else {
            None
        }
    }
}

/// A product of two 64-bit values leaves room in 128 bits for one more
/// 64-bit carry.
proof fn lemma_u64_mul_fits(a: u64, b: u64)
    ensures
        a as nat * b as nat <= 0xfffffffffffffffe0000000000000001,
        a as nat * b as nat / 0x10000000000000000 < 0x10000000000000000,
{
    assert(a as nat * b as nat <= 0xfffffffffffffffe0000000000000001) by (nonlinear_arith)
        requires
            a <= 0xffffffffffffffff,
            b <= 0xffffffffffffffff,
    ;
    assert(a as nat * b as nat / 0x10000000000000000 < 0x10000000000000000) by (nonlinear_arith)
        requires
            a as nat * b as nat <= 0xfffffffffffffffe0000000000000001,
    ;
}

/// Distributes a factor over the limb decomposition: multiplying a four-limb
/// number by `m` multiplies each limb's contribution by `m`.
proof fn lemma_mul_u64_limbs(a0: nat, a1: nat, a2: nat, a3: nat, m: nat)
    ensures
        (a0 + a1 * 0x10000000000000000 + a2 * 0x100000000000000000000000000000000
            + a3 * 0x1000000000000000000000000000000000000000000000000) * m == a0 * m + (a1 * m)
            * 0x10000000000000000 + (a2 * m) * 0x100000000000000000000000000000000 + (a3 * m)
            * 0x1000000000000000000000000000000000000000000000000,
{
    assert((a0 + a1 * 0x10000000000000000 + a2 * 0x100000000000000000000000000000000
        + a3 * 0x1000000000000000000000000000000000000000000000000) * m == a0 * m + (a1 * m)
        * 0x10000000000000000 + (a2 * m) * 0x100000000000000000000000000000000 + (a3 * m)
        * 0x1000000000000000000000000000000000000000000000000) by (nonlinear_arith);
}


/// The divisor that brings byte `k` (0 = most significant) of a 64-bit limb
/// into the low eight bits.
pub open spec fn byte_divisor(k: int) -> nat {
    if k == 0 {
        0x100000000000000
    } else if k == 1 {
        0x1000000000000
    } else if k == 2 {
        0x10000000000
    } else if k == 3 {
        0x100000000
    } else if k == 4 {
        0x1000000
    } else if k == 5 {
        0x10000
    } else if k == 6 {
        0x100
    } else {
        1
    }
}

/// Byte `k` (0 = most significant) of a 64-bit limb.
pub open spec fn limb_be_byte(l: u64, k: int) -> u8 {
    ((l as nat / byte_divisor(k)) % 256) as u8
}

/// The 32-byte big-endian rendering of a 256-bit value.
pub open spec fn u256_be_bytes(x: U256) -> Seq<u8> {
    Seq::new(32, |i: int| limb_be_byte(x.limb(3 - i / 8), i % 8))
}

impl U256 {
    /// Limb `w` of the value, least significant first.
    pub closed spec fn limb(self, w: int) -> u64 {
        if w == 0 {
            self.n0
        } else if w == 1 {
            self.n1
        } else if w == 2 {
            self.n2
        } else {
            self.n3
        }
    }

    /// Reads a value from its 32-byte big-endian rendering.
    pub fn from_be_bytes(bytes: &[u8; 32]) -> (r: Self)
        ensures
            r.as_nat() == u64_from_be(bytes@.subrange(0, 8))
                * 0x1000000000000000000000000000000000000000000000000 + u64_from_be(
                bytes@.subrange(8, 16),
            ) * 0x100000000000000000000000000000000 + u64_from_be(bytes@.subrange(16, 24))
                * 0x10000000000000000 + u64_from_be(bytes@.subrange(24, 32)),
    {
        U256 {
            n3: limb_from_be(bytes, 0),
            n2: limb_from_be(bytes, 8),
            n1: limb_from_be(bytes, 16),
            n0: limb_from_be(bytes, 24),
        }
    }
}

fn limb_byte(l: u64, k: usize) -> (b: u8)
    requires
        k < 8,
    ensures
        b == limb_be_byte(l, k as int),
{
    let d: u64 = if k == 0 {
        0x100000000000000
    } else if k == 1 {
        0x1000000000000
    } else if k == 2 {
        0x10000000000
    } else if k == 3 {
        0x100000000
    } else if k == 4 {
        0x1000000
    } else if k == 5 {
        0x10000
    } else if k == 6 {
        0x100
    } else {
        1
    };
    proof {
        lemma_mod_bound((l / d) as int, 0x100);
    }
    ((l / d) % 0x100) as u8
}

/// Renders a 256-bit value as 32 big-endian bytes.
/// `lemma_u256_be_bytes_value` reads the rendering back as the number;
/// `lemma_limbs_from_value` derives the rendering from the number.
pub fn u256_to_arr(value: &U256) -> (r: [u8; 32])
    ensures
        r@ == u256_be_bytes(*value),
{
    let x = *value;
    let r = [
        limb_byte(x.n3, 0),
        limb_byte(x.n3, 1),
        limb_byte(x.n3, 2),
        limb_byte(x.n3, 3),
        limb_byte(x.n3, 4),
        limb_byte(x.n3, 5),
        limb_byte(x.n3, 6),
        limb_byte(x.n3, 7),
        limb_byte(x.n2, 0),
        limb_byte(x.n2, 1),
        limb_byte(x.n2, 2),
        limb_byte(x.n2, 3),
        limb_byte(x.n2, 4),
        limb_byte(x.n2, 5),
        limb_byte(x.n2, 6),
        limb_byte(x.n2, 7),
        limb_byte(x.n1, 0),
        limb_byte(x.n1, 1),
        limb_byte(x.n1, 2),
        limb_byte(x.n1, 3),
        limb_byte(x.n1, 4),
        limb_byte(x.n1, 5),
        limb_byte(x.n1, 6),
        limb_byte(x.n1, 7),
        limb_byte(x.n0, 0),
        limb_byte(x.n0, 1),
        limb_byte(x.n0, 2),
        limb_byte(x.n0, 3),
        limb_byte(x.n0, 4),
        limb_byte(x.n0, 5),
        limb_byte(x.n0, 6),
        limb_byte(x.n0, 7),
    ];
    assert(r@ =~= u256_be_bytes(x));
    r
}



/// The eight big-endian bytes of a limb recompose to the limb.
proof fn lemma_limb_be_bytes_value(l: u64)
    ensures
        limb_be_byte(l, 0) as nat * 0x100000000000000 + limb_be_byte(l, 1) as nat * 0x1000000000000
            + limb_be_byte(l, 2) as nat * 0x10000000000 + limb_be_byte(l, 3) as nat * 0x100000000
            + limb_be_byte(l, 4) as nat * 0x1000000 + limb_be_byte(l, 5) as nat * 0x10000
            + limb_be_byte(l, 6) as nat * 0x100 + limb_be_byte(l, 7) as nat == l as nat,
{
    lemma_div_denominator(l as int, 0x100, 0x100);
    lemma_div_denominator(l as int, 0x10000, 0x100);
    lemma_div_denominator(l as int, 0x1000000, 0x100);
    lemma_div_denominator(l as int, 0x100000000, 0x100);
    lemma_div_denominator(l as int, 0x10000000000, 0x100);
    lemma_div_denominator(l as int, 0x1000000000000, 0x100);
    lemma_fundamental_div_mod(l as int, 0x100);
    lemma_fundamental_div_mod(l as int / 0x100, 0x100);
    lemma_fundamental_div_mod(l as int / 0x10000, 0x100);
    lemma_fundamental_div_mod(l as int / 0x1000000, 0x100);
    lemma_fundamental_div_mod(l as int / 0x100000000, 0x100);
    lemma_fundamental_div_mod(l as int / 0x10000000000, 0x100);
    lemma_fundamental_div_mod(l as int / 0x1000000000000, 0x100);
    lemma_mod_bound(l as int / 0x100000000000000, 0x100);
    assert(l as int / 0x100000000000000 < 0x100);
}

/// Reading the 32-byte rendering back as four big-endian 64-bit groups
/// yields the number: the rendering and the value determine each other.
pub proof fn lemma_u256_be_bytes_value(x: U256)
    ensures
        u64_from_be(u256_be_bytes(x).subrange(0, 8))
            * 0x1000000000000000000000000000000000000000000000000 + u64_from_be(
            u256_be_bytes(x).subrange(8, 16),
        ) * 0x100000000000000000000000000000000 + u64_from_be(u256_be_bytes(x).subrange(16, 24))
            * 0x10000000000000000 + u64_from_be(u256_be_bytes(x).subrange(24, 32)) == x.as_nat(),
{
    let s = u256_be_bytes(x);
    assert(u64_from_be(s.subrange(0, 8)) == x.n3 as nat) by {
        lemma_limb_be_bytes_value(x.n3);
    }
    assert(u64_from_be(s.subrange(8, 16)) == x.n2 as nat) by {
        lemma_limb_be_bytes_value(x.n2);
    }
    assert(u64_from_be(s.subrange(16, 24)) == x.n1 as nat) by {
        lemma_limb_be_bytes_value(x.n1);
    }
    assert(u64_from_be(s.subrange(24, 32)) == x.n0 as nat) by {
        lemma_limb_be_bytes_value(x.n0);
    }
}

/// Each limb is a base-2^64 digit of the value: the value determines the
/// limbs, and with it the whole big-endian rendering.
pub proof fn lemma_limbs_from_value(x: U256)
    ensures
        x.limb(0) as nat == x.as_nat() % 0x10000000000000000nat,
        x.limb(1) as nat == x.as_nat() / 0x10000000000000000nat % 0x10000000000000000nat,
        x.limb(2) as nat == x.as_nat() / 0x100000000000000000000000000000000nat
            % 0x10000000000000000nat,
        x.limb(3) as nat == x.as_nat() / 0x1000000000000000000000000000000000000000000000000nat,
{
    let v = x.as_nat() as int;
    let b64: int = 0x10000000000000000;
    let b128: int = 0x100000000000000000000000000000000int;
    let q1 = x.n1 as int + x.n2 as int * b64 + x.n3 as int * b128;
    lemma_fundamental_div_mod_converse_div(v, b64, q1, x.n0 as int);
    lemma_fundamental_div_mod_converse_mod(v, b64, q1, x.n0 as int);
    let q2 = x.n2 as int + x.n3 as int * b64;
    lemma_fundamental_div_mod_converse_div(q1, b64, q2, x.n1 as int);
    lemma_fundamental_div_mod_converse_mod(q1, b64, q2, x.n1 as int);
    lemma_fundamental_div_mod_converse_div(q2, b64, x.n3 as int, x.n2 as int);
    lemma_fundamental_div_mod_converse_mod(q2, b64, x.n3 as int, x.n2 as int);
    lemma_div_denominator(v, b64, b64);
    lemma_div_denominator(v, b128, b64);
}

/// The value of eight big-endian bytes.
pub open spec fn u64_from_be(s: Seq<u8>) -> nat {
    s[0] as nat * 0x100000000000000 + s[1] as nat * 0x1000000000000 + s[2] as nat * 0x10000000000
        + s[3] as nat * 0x100000000 + s[4] as nat * 0x1000000 + s[5] as nat * 0x10000 + s[6] as nat
        * 0x100 + s[7] as nat
}

fn limb_from_be(bytes: &[u8; 32], off: usize) -> (r: u64)
    requires
        off + 8 <= 32,
    ensures
        r as nat == u64_from_be(bytes@.subrange(off as int, off + 8)),
{
    let r = bytes[off] as u64 * 0x100000000000000 + bytes[off + 1] as u64 * 0x1000000000000
        + bytes[off + 2] as u64 * 0x10000000000 + bytes[off + 3] as u64 * 0x100000000 + bytes[off
        + 4] as u64 * 0x1000000 + bytes[off + 5] as u64 * 0x10000 + bytes[off + 6] as u64 * 0x100
        + bytes[off + 7] as u64;
    proof {
        let s = bytes@.subrange(off as int, off + 8);
        assert(s[0] == bytes@[off as int]);
        assert(s[1] == bytes@[off as int + 1]);
        assert(s[2] == bytes@[off as int + 2]);
        assert(s[3] == bytes@[off as int + 3]);
        assert(s[4] == bytes@[off as int + 4]);
        assert(s[5] == bytes@[off as int + 5]);
        assert(s[6] == bytes@[off as int + 6]);
        assert(s[7] == bytes@[off as int + 7]);
    }
    r
}

} // verus!
