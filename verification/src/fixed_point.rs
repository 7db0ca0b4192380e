//! Signed fixed-point numbers with 80 integer bits and 48 fractional bits.
//!
//! A value is held as its raw bits: the number it stands for is
//! `bits / 2^48`. Every operation is checked: where the exact result does not
//! fit, or a divisor is zero, it yields `None`.

use vstd::prelude::*;

verus! {

/// Number of fractional bits.
pub const FRAC_BITS: u32 = 48;

/// Raw bits of the number one: two to the power `FRAC_BITS`.
pub const ONE_BITS: i128 = 0x1_0000_0000_0000;

/// A signed fixed-point number, 80 integer bits and 48 fractional bits.
#[derive(Clone, Copy, Debug, PartialEq, Eq, Structural)]
pub struct I80F48 {
    /// The number times `2^48`.
    pub bits: i128,
}

/// Whether `x` can be the raw bits of an `I80F48`.
pub open spec fn fits_bits(x: int) -> bool {
    i128::MIN <= x <= i128::MAX
}

/// The fixed-point number with raw bits `x`, if `x` fits.
pub open spec fn from_int_bits(x: int) -> Option<I80F48> {
    if fits_bits(x) {
        Some(I80F48 { bits: x as i128 })
    } else {
        None
    }
}

/// The quotient of `n` by `d` rounded towards zero, for `d != 0`.
pub open spec fn div_towards_zero(n: int, d: int) -> int {
    if n >= 0 && d > 0 {
        n / d
    } else if n < 0 && d < 0 {
        (-n) / (-d)
    } else if n < 0 {
        -((-n) / d)
    } else {
        -(n / (-d))
    }
}

/// Whether `n` lies between zero and `y`, both included, on either side of
/// zero.
pub open spec fn between_zero_and(n: int, y: int) -> bool {
    (0 <= n <= y) || (y <= n <= 0)
}

/// The quotient rounded towards zero, times the divisor, lies between zero
/// and the dividend and less than one divisor away from it.
pub proof fn lemma_div_towards_zero_bounds(n: int, d: int)
    requires
        d != 0,
    ensures
        between_zero_and(div_towards_zero(n, d) * d, n),
        d > 0 ==> -d < n - div_towards_zero(n, d) * d < d,
        d < 0 ==> d < n - div_towards_zero(n, d) * d < -d,
{
    let a = if n < 0 {
        -n
    } else {
        n
    };
    let b = if d < 0 {
        -d
    } else {
        d
    };
    let u = a / b;
    vstd::arithmetic::div_mod::lemma_fundamental_div_mod(a, b);
    vstd::arithmetic::div_mod::lemma_mod_bound(a, b);
    vstd::arithmetic::div_mod::lemma_div_pos_is_pos(a, b);
    let t = div_towards_zero(n, d);
    if (n >= 0 && d > 0) || (n < 0 && d < 0) {
        assert(t == u);
    } else {
        assert(t == -u);
        assert(t * d == -(u * d)) by (nonlinear_arith)
            requires
                t == -u,
        ;
    }
    assert(b == d ==> u * d == b * u) by (nonlinear_arith);
    assert(b == -d ==> u * d == -(b * u)) by (nonlinear_arith);
}

/// A number whose product with the divisor lies between zero and the
/// dividend, less than one divisor away from it, is the quotient rounded
/// towards zero.
pub proof fn lemma_div_towards_zero_unique(n: int, d: int, t: int)
    requires
        d != 0,
        between_zero_and(t * d, n),
        d > 0 ==> -d < n - t * d < d,
        d < 0 ==> d < n - t * d < -d,
    ensures
        div_towards_zero(n, d) == t,
{
    let q = div_towards_zero(n, d);
    lemma_div_towards_zero_bounds(n, d);
    let r = n - t * d;
    let r0 = n - q * d;
    assert((q - t) * d == r - r0) by (nonlinear_arith)
        requires
            r == n - t * d,
            r0 == n - q * d,
    ;
    assert(q == t) by (nonlinear_arith)
        requires
            d != 0,
            d > 0 ==> -d < (q - t) * d < d,
            d < 0 ==> d < (q - t) * d < -d,
    ;
}

/// Scaling dividend and divisor by the same positive number leaves the
/// quotient rounded towards zero as it is.
pub proof fn lemma_div_towards_zero_scaled(n: int, d: int, k: int)
    requires
        d != 0,
        k > 0,
    ensures
        div_towards_zero(n * k, d * k) == div_towards_zero(n, d),
{
    let t = div_towards_zero(n, d);
    lemma_div_towards_zero_bounds(n, d);
    let r = n - t * d;
    assert(t * (d * k) == (t * d) * k) by (nonlinear_arith);
    assert(n * k - t * (d * k) == r * k) by (nonlinear_arith)
        requires
            r == n - t * d,
    ;
    assert(between_zero_and((t * d) * k, n * k)) by (nonlinear_arith)
        requires
            between_zero_and(t * d, n),
            k > 0,
    ;
    assert(d > 0 ==> -(d * k) < r * k < d * k) by (nonlinear_arith)
        requires
            d > 0 ==> -d < r < d,
            k > 0,
    ;
    assert(d < 0 ==> d * k < r * k < -(d * k)) by (nonlinear_arith)
        requires
            d < 0 ==> d < r < -d,
            k > 0,
    ;
    assert(d > 0 ==> d * k > 0) by (nonlinear_arith)
        requires
            k > 0,
    ;
    assert(d < 0 ==> d * k < 0) by (nonlinear_arith)
        requires
            k > 0,
    ;
    lemma_div_towards_zero_unique(n * k, d * k, t);
}

/// Taking `m` divisors off the dividend takes `m` off the quotient rounded
/// towards zero, for `m` between zero and that quotient.
pub proof fn lemma_div_towards_zero_shifted(n: int, d: int, m: int)
    requires
        d != 0,
        between_zero_and(m, div_towards_zero(n, d)),
    ensures
        div_towards_zero(n - m * d, d) == div_towards_zero(n, d) - m,
        between_zero_and(n - m * d, n),
{
    let t = div_towards_zero(n, d);
    lemma_div_towards_zero_bounds(n, d);
    let r = n - t * d;
    assert((t - m) * d == t * d - m * d) by (nonlinear_arith);
    assert(n - m * d - (t - m) * d == r);
    assert(between_zero_and((t - m) * d, t * d) && between_zero_and(m * d, t * d)) by (nonlinear_arith)
        requires
            between_zero_and(m, t),
            d != 0,
    ;
    lemma_div_towards_zero_unique(n - m * d, d, t - m);
}

/// Ten to the power `e`.
pub open spec fn pow10(e: nat) -> nat
    decreases e,
{
    if e == 0 {
        1
    } else {
        10 * pow10((e - 1) as nat)
    }
}

impl I80F48 {
    /// The sum, where it fits.
    pub open spec fn add_spec(self, rhs: I80F48) -> Option<I80F48> {
        from_int_bits(self.bits + rhs.bits)
    }

    /// The difference, where it fits.
    pub open spec fn sub_spec(self, rhs: I80F48) -> Option<I80F48> {
        from_int_bits(self.bits - rhs.bits)
    }

    /// The negation, where it fits.
    pub open spec fn neg_spec(self) -> Option<I80F48> {
        from_int_bits(-self.bits)
    }

    /// The product rounded towards minus infinity, where it fits.
    pub open spec fn mul_spec(self, rhs: I80F48) -> Option<I80F48> {
        from_int_bits((self.bits * rhs.bits) / (ONE_BITS as int))
    }

    /// The quotient rounded towards zero, where the divisor is not zero and
    /// the quotient fits.
    pub open spec fn div_spec(self, rhs: I80F48) -> Option<I80F48> {
        if rhs.bits == 0 {
            None
        } else {
            from_int_bits(div_towards_zero(self.bits * ONE_BITS, rhs.bits as int))
        }
    }

    /// The integer part rounded towards zero.
    pub open spec fn trunc_spec(self) -> int {
        div_towards_zero(self.bits as int, ONE_BITS as int)
    }

    /// The integer part rounded towards minus infinity.
    pub open spec fn floor_spec(self) -> int {
        self.bits / ONE_BITS
    }

    /// The number zero.
    pub fn zero() -> (r: I80F48)
        ensures
            r.bits == 0,
    {
        I80F48 { bits: 0 }
    }

    /// The number with the given raw bits.
    pub fn from_bits(bits: i128) -> (r: I80F48)
        ensures
            r.bits == bits,
    {
        I80F48 { bits }
    }

    /// The raw bits of the number.
    pub fn to_bits(self) -> (r: i128)
        ensures
            r == self.bits,
    {
        self.bits
    }

    /// The fixed-point number equal to the integer `n`. Every `u64` fits.
    pub fn from_u64(n: u64) -> (r: I80F48)
        ensures
            r.bits == n * ONE_BITS,
    {
        assert(n * ONE_BITS <= 0xffff_ffff_ffff_ffff * 0x1_0000_0000_0000) by (nonlinear_arith)
            requires
                0 <= n <= 0xffff_ffff_ffff_ffff,
                ONE_BITS == 0x1_0000_0000_0000,
        ;
        I80F48 { bits: (n as i128) * ONE_BITS }
    }

    /// The fixed-point number equal to the integer `n`. Every `i64` fits.
    pub fn from_i64(n: i64) -> (r: I80F48)
        ensures
            r.bits == n * ONE_BITS,
    {
        assert(-0x8000_0000_0000_0000 * 0x1_0000_0000_0000 <= n * ONE_BITS
            <= 0x7fff_ffff_ffff_ffff * 0x1_0000_0000_0000) by (nonlinear_arith)
            requires
                -0x8000_0000_0000_0000 <= n <= 0x7fff_ffff_ffff_ffff,
                ONE_BITS == 0x1_0000_0000_0000,
        ;
        I80F48 { bits: (n as i128) * ONE_BITS }
    }

    /// Whether the number is greater than zero.
    pub fn is_positive(self) -> (r: bool)
        ensures
            r == (self.bits > 0),
    {
        self.bits > 0
    }

    /// Whether the number is less than zero.
    pub fn is_negative(self) -> (r: bool)
        ensures
            r == (self.bits < 0),
    {
        self.bits < 0
    }

    /// Whether the number is zero.
    pub fn is_zero(self) -> (r: bool)
        ensures
            r == (self.bits == 0),
    {
        self.bits == 0
    }

    /// Checked addition: the sum, or `None` where it does not fit.
    pub fn checked_add(self, rhs: I80F48) -> (r: Option<I80F48>)
        ensures
            r == self.add_spec(rhs),
    {
        match self.bits.checked_add(rhs.bits) {
            Some(bits) => Some(I80F48 { bits }),
            None => None,
        }
    }

    /// Checked subtraction: the difference, or `None` where it does not fit.
    pub fn checked_sub(self, rhs: I80F48) -> (r: Option<I80F48>)
        ensures
            r == self.sub_spec(rhs),
    {
        match self.bits.checked_sub(rhs.bits) {
            Some(bits) => Some(I80F48 { bits }),
            None => None,
        }
    }

    /// Checked negation: `None` only for the least number.
    pub fn checked_neg(self) -> (r: Option<I80F48>)
        ensures
            r == self.neg_spec(),
    {
        let zero: i128 = 0;
        match zero.checked_sub(self.bits) {
            Some(bits) => Some(I80F48 { bits }),
            None => None,
        }
    }

    /// Checked multiplication: the product rounded towards minus infinity,
    /// or `None` where it does not fit.
    pub fn checked_mul(self, rhs: I80F48) -> (r: Option<I80F48>)
        ensures
            r == self.mul_spec(rhs),
    {
        match mul_bits(self.bits, rhs.bits) {
            Some(bits) => Some(I80F48 { bits }),
            None => None,
        }
    }

    /// Checked division: the quotient rounded towards zero, or `None` where
    /// the divisor is zero or the quotient does not fit.
    pub fn checked_div(self, rhs: I80F48) -> (r: Option<I80F48>)
        ensures
            r == self.div_spec(rhs),
    {
        match div_bits(self.bits, rhs.bits) {
            Some(bits) => Some(I80F48 { bits }),
            None => None,
        }
    }

    /// The integer part rounded towards minus infinity, as the fixed-point
    /// type's own conversion to an unsigned integer gives it; `None` where
    /// that is negative or does not fit in 64 bits.
    pub fn checked_to_u64(self) -> (r: Option<u64>)
        ensures
            0 <= self.floor_spec() <= u64::MAX ==> r == Some(self.floor_spec() as u64),
            !(0 <= self.floor_spec() <= u64::MAX) ==> r.is_none(),
    {
        if self.bits < 0 {
            None
        } else {
            let q: i128 = self.bits / ONE_BITS;
            if q > 0xffff_ffff_ffff_ffff {
                None
            } else {
                Some(q as u64)
            }
        }
    }

    /// The integer part rounded towards zero; `None` where it does not fit in
    /// 64 bits.
    pub fn checked_trunc_to_i64(self) -> (r: Option<i64>)
        ensures
            i64::MIN <= self.trunc_spec() <= i64::MAX ==> r == Some(self.trunc_spec() as i64),
            !(i64::MIN <= self.trunc_spec() <= i64::MAX) ==> r.is_none(),
    {
        match self.bits.checked_div(ONE_BITS) {
            Some(q) => {
                if q < -0x8000_0000_0000_0000 || q > 0x7fff_ffff_ffff_ffff {
                    None
                } else {
                    Some(q as i64)
                }
            },
            None => None,
        }
    }
}

/// `pow10` grows with its argument.
pub proof fn lemma_pow10_monotonic(a: nat, b: nat)
    requires
        a <= b,
    ensures
        0 < pow10(a) <= pow10(b),
    decreases b,
{
    if b == 0 {
    } else if a == b {
        lemma_pow10_monotonic((a - 1) as nat, (b - 1) as nat);
    } else {
        lemma_pow10_monotonic(a, (b - 1) as nat);
    }
}

/// Ten to the power `e` as a 64-bit number, where it fits.
pub open spec fn pow10_u64_spec(e: nat) -> Option<u64> {
    if pow10(e) <= u64::MAX {
        Some(pow10(e) as u64)
    } else {
        None
    }
}

/// Ten to the power `e`, or `None` where that does not fit in 64 bits.
pub fn checked_pow10(e: u32) -> (r: Option<u64>)
    ensures
        r == pow10_u64_spec(e as nat),
{
    let mut acc: u64 = 1;
    let mut i: u32 = 0;
    while i < e
        invariant
            0 <= i <= e,
            acc == pow10(i as nat),
        decreases e - i,
    {
        match acc.checked_mul(10) {
            Some(next) => {
                acc = next;
            },
            None => {
                proof {
                    lemma_pow10_monotonic((i + 1) as nat, e as nat);
                }
                return None;
            },
        }
        i = i + 1;
    }
    Some(acc)
}

/// Calls `fixed::FixedI128::checked_mul` on two numbers with 48 fractional
/// bits, given and returned as raw bits. Trusted: the result is the exact
/// product of the raw bits divided by `2^48` and rounded towards minus
/// infinity, or `None` where that does not fit in 128 bits.
#[verifier::external_body]
fn mul_bits(a: i128, b: i128) -> (r: Option<i128>)
    ensures
        fits_bits((a * b) / (ONE_BITS as int)) ==> r == Some(((a * b) / (ONE_BITS as int)) as i128),
        !fits_bits((a * b) / (ONE_BITS as int)) ==> r.is_none(),
{
    let x = fixed::types::I80F48::from_bits(a);
    let y = fixed::types::I80F48::from_bits(b);
    match x.checked_mul(y) {
        Some(p) => Some(p.to_bits()),
        None => None,
    }
}

/// Calls `fixed::FixedI128::checked_div` on two numbers with 48 fractional
/// bits, given and returned as raw bits. Trusted: the result is `None` for a
/// zero divisor; else the raw bits of the dividend times `2^48`, divided by
/// those of the divisor and rounded towards zero, or `None` where that does
/// not fit in 128 bits.
#[verifier::external_body]
fn div_bits(a: i128, b: i128) -> (r: Option<i128>)
    ensures
        b == 0 ==> r.is_none(),
        b != 0 && fits_bits(div_towards_zero(a * ONE_BITS, b as int)) ==> r == Some(
            div_towards_zero(a * ONE_BITS, b as int) as i128,
        ),
        b != 0 && !fits_bits(div_towards_zero(a * ONE_BITS, b as int)) ==> r.is_none(),
{
    let x = fixed::types::I80F48::from_bits(a);
    let y = fixed::types::I80F48::from_bits(b);
    match x.checked_div(y) {
        Some(q) => Some(q.to_bits()),
        None => None,
    }
}

} // verus!
