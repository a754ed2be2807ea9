use vstd::prelude::*;
use vstd::arithmetic::div_mod::{lemma_fundamental_div_mod, lemma_fundamental_div_mod_converse};
use vstd::arithmetic::power2::{lemma_pow2_pos, lemma_pow2_unfold, pow2};

verus! {

/// A template number, held as the bit pattern of an IEEE-754
/// single-precision value.
#[derive(Clone, Copy, Debug)]
pub struct Number {
    pub bits: u32,
}

pub const SIGN_BIT: u32 = 0x8000_0000;

/// The magnitude bits of the positive infinity; finite values lie below.
pub const INFINITY_BITS: u32 = 0x7f80_0000;

/// The fraction field spans the low 23 bits.
pub const FRACTION_UNIT: u32 = 0x80_0000;

/// The absolute value, times 2^149, of the finite number whose magnitude
/// bits are `m`: a subnormal number is its fraction times 2^-149, a normal
/// one the fraction with its hidden bit times 2^(exponent - 150).
pub open spec fn scaled_magnitude(m: int) -> int {
    let e = m / FRACTION_UNIT as int;
    let f = m % FRACTION_UNIT as int;
    if e == 0 {
        f
    } else {
        (FRACTION_UNIT as int + f) * pow2((e - 1) as nat)
    }
}

/// One step up in the magnitude bits is a step up in value.
proof fn lemma_scaled_step(m: int)
    requires
        0 <= m,
    ensures
        0 <= scaled_magnitude(m) < scaled_magnitude(m + 1),
{
    let u = FRACTION_UNIT as int;
    let e = m / u;
    let f = m % u;
    lemma_fundamental_div_mod(m, u);
    if e > 0 {
        lemma_pow2_pos((e - 1) as nat);
    }
    if f + 1 < u {
        lemma_fundamental_div_mod_converse(m + 1, u, e, f + 1);
        assert((m + 1) / u == e && (m + 1) % u == f + 1);
        if e > 0 {
            let p = pow2((e - 1) as nat) as int;
            assert((u + f) * p < (u + f + 1) * p) by (nonlinear_arith)
                requires
                    p > 0,
            ;
            assert(0 <= (u + f) * p) by (nonlinear_arith)
                requires
                    p > 0,
                    f >= 0,
                    u > 0,
            ;
        }
    } else {
        assert(m + 1 == (e + 1) * u + 0) by (nonlinear_arith)
            requires
                m == u * e + f,
                f == u - 1,
        ;
        lemma_fundamental_div_mod_converse(m + 1, u, e + 1, 0);
        lemma_pow2_pos(e as nat);
        if e > 0 {
            lemma_pow2_unfold(e as nat);
            let p = pow2((e - 1) as nat) as int;
            assert((u + f) * p < u * (2 * p)) by (nonlinear_arith)
                requires
                    p > 0,
                    f == u - 1,
            ;
            assert(0 <= (u + f) * p) by (nonlinear_arith)
                requires
                    p > 0,
                    f >= 0,
                    u > 0,
            ;
        } else {
            assert(pow2(0) == 1) by {
                vstd::arithmetic::power2::lemma2_to64();
            }
        }
    }
}

/// Larger magnitude bits mean a larger value.
pub proof fn lemma_scaled_monotone(m1: int, m2: int)
    requires
        0 <= m1 < m2,
    ensures
        0 <= scaled_magnitude(m1) < scaled_magnitude(m2),
    decreases m2 - m1,
{
    lemma_scaled_step(m1);
    if m1 + 1 < m2 {
        lemma_scaled_monotone(m1 + 1, m2);
    }
}

impl Number {
    /// Position of the number on the line of single-precision values:
    /// IEEE-754 orders values of one sign by their magnitude bits, so the
    /// key is the magnitude for a clear sign bit and its negation otherwise.
    /// Both zeros get key 0; a NaN lies beyond the infinity of its sign,
    /// which makes the order total.
    pub open spec fn order_key(self) -> int {
        if self.bits < SIGN_BIT {
            self.bits as int
        } else {
            -((self.bits - SIGN_BIT) as int)
        }
    }

    /// The magnitude bits: all but the sign.
    pub open spec fn magnitude(self) -> int {
        if self.bits < SIGN_BIT {
            self.bits as int
        } else {
            (self.bits - SIGN_BIT) as int
        }
    }

    /// Neither an infinity nor a NaN.
    pub open spec fn is_finite(self) -> bool {
        self.magnitude() < INFINITY_BITS
    }

    /// The value of a finite number, times 2^149, which makes every finite
    /// single-precision value an integer.
    pub open spec fn scaled_value(self) -> int {
        if self.bits < SIGN_BIT {
            scaled_magnitude(self.magnitude())
        } else {
            -scaled_magnitude(self.magnitude())
        }
    }

    pub fn from_bits(bits: u32) -> (r: Number)
        ensures
            r.bits == bits,
    {
        Number { bits }
    }

    pub fn to_bits(self) -> (r: u32)
        ensures
            r == self.bits,
    {
        self.bits
    }

    /// Executable form of `order_key`.
    pub fn key(self) -> (r: i64)
        ensures
            r as int == self.order_key(),
    {
        if self.bits < SIGN_BIT {
            self.bits as i64
        } else {
            -((self.bits - SIGN_BIT) as i64)
        }
    }
}

/// On finite numbers the order keys order the numbers as their values do.
pub proof fn lemma_key_orders_values(a: Number, b: Number)
    requires
        a.is_finite(),
        b.is_finite(),
    ensures
        (a.order_key() < b.order_key()) == (a.scaled_value() < b.scaled_value()),
        (a.order_key() == b.order_key()) == (a.scaled_value() == b.scaled_value()),
{
    let (ma, mb) = (a.magnitude(), b.magnitude());
    assert(scaled_magnitude(0) == 0);
    if ma < mb {
        lemma_scaled_monotone(ma, mb);
    } else if mb < ma {
        lemma_scaled_monotone(mb, ma);
    }
    if 0 < ma {
        lemma_scaled_monotone(0, ma);
    }
    if 0 < mb {
        lemma_scaled_monotone(0, mb);
    }
}

} // verus!
