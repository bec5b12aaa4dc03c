use vstd::prelude::*;

verus! {

/// Number of raw units in the value one: a [`Fixed`] counts billionths.
pub const SCALE: i64 = 1_000_000_000;

/// The nearest integer to `x` that an `i64` can hold.
pub open spec fn saturate(x: int) -> int {
    if x < i64::MIN {
        i64::MIN as int
    } else if x > i64::MAX {
        i64::MAX as int
    } else {
        x
    }
}

/// Whether an `i64` can hold `x`, so that [`saturate`] leaves it as it is.
pub open spec fn fits(x: int) -> bool {
    i64::MIN <= x <= i64::MAX
}

/// The distance of `x` from zero.
pub open spec fn magnitude(x: int) -> int {
    if x < 0 {
        -x
    } else {
        x
    }
}

/// The quotient of `a` by `b`, rounded toward zero.
pub open spec fn trunc_div(a: int, b: int) -> int
    recommends
        b != 0,
{
    if (a < 0) == (b < 0) {
        magnitude(a) / magnitude(b)
    } else {
        -(magnitude(a) / magnitude(b))
    }
}

/// A signed decimal fixed-point number with nine fractional digits.
///
/// The number stands for `raw / SCALE`. Arithmetic saturates at the ends of
/// the `i64` range and rounds quotients toward zero.
#[derive(Clone, Copy, PartialEq, Eq, Structural, Debug)]
pub struct Fixed {
    pub raw: i64,
}

impl View for Fixed {
    type V = int;

    open spec fn view(&self) -> int {
        self.raw as int
    }
}

fn magnitude_of(x: i64) -> (m: u128)
    ensures
        m == magnitude(x as int),
        m <= 0x8000_0000_0000_0000,
{
    if x >= 0 {
        x as u128
    } else {
        let wide: i128 = x as i128;
        (-wide) as u128
    }
}

fn from_sign_magnitude(negative: bool, m: u128) -> (r: i64)
    ensures
        r == saturate(if negative { -(m as int) } else { m as int }),
{
    if negative {
        if m >= 0x8000_0000_0000_0000 {
            i64::MIN
        } else {
            -(m as i64)
        }
    } else {
        if m > 0x7fff_ffff_ffff_ffff {
            i64::MAX
        } else {
            m as i64
        }
    }
}

/// Sign and size of a product, from those of its factors.
pub proof fn lemma_product_sign(a: int, b: int)
    ensures
        magnitude(a * b) == magnitude(a) * magnitude(b),
        a * b < 0 <==> (a != 0 && b != 0 && ((a < 0) != (b < 0))),
        (a == 0 || b == 0) <==> a * b == 0,
{
    assert(magnitude(a * b) == magnitude(a) * magnitude(b)) by (nonlinear_arith);
    assert(a * b < 0 <==> (a != 0 && b != 0 && ((a < 0) != (b < 0)))) by (nonlinear_arith);
    assert((a == 0 || b == 0) <==> a * b == 0) by (nonlinear_arith);
}

/// `a * b / d`, rounded toward zero and saturated, with the product taken exactly.
fn mul_div(a: i64, b: i64, d: i64) -> (r: i64)
    requires
        d != 0,
    ensures
        r == saturate(trunc_div(a * b, d as int)),
{
    let ma = magnitude_of(a);
    let mb = magnitude_of(b);
    let md = magnitude_of(d);
    assert(ma * mb <= 0x4000_0000_0000_0000_0000_0000_0000_0000) by (nonlinear_arith)
        requires
            ma <= 0x8000_0000_0000_0000,
            mb <= 0x8000_0000_0000_0000,
    ;
    let q = (ma * mb) / md;
    let negative = ((a < 0) != (b < 0)) != (d < 0);
    proof {
        lemma_product_sign(a as int, b as int);
        if a == 0 || b == 0 {
            assert(ma * mb == 0) by (nonlinear_arith)
                requires
                    ma == 0 || mb == 0,
            ;
            assert(q == 0);
        }
    }
    from_sign_magnitude(negative, q)
}

impl Fixed {
    /// The number that stands for `raw / SCALE`.
    pub fn from_raw(raw: i64) -> (r: Fixed)
        ensures
            r@ == raw,
    {
        Fixed { raw }
    }

    /// The count of billionths that this number holds.
    pub fn raw(self) -> (r: i64)
        ensures
            r == self@,
    {
        self.raw
    }

    pub open spec fn spec_zero() -> Fixed {
        Fixed { raw: 0 }
    }

    /// The number zero.
    #[verifier::when_used_as_spec(spec_zero)]
    pub fn zero() -> (r: Fixed)
        ensures
            r == Fixed::spec_zero(),
    {
        Fixed { raw: 0 }
    }

    pub open spec fn spec_one() -> Fixed {
        Fixed { raw: SCALE }
    }

    /// The number one.
    #[verifier::when_used_as_spec(spec_one)]
    pub fn one() -> (r: Fixed)
        ensures
            r == Fixed::spec_one(),
    {
        Fixed { raw: SCALE }
    }

    pub open spec fn spec_from_int(n: i32) -> Fixed {
        Fixed { raw: (n * SCALE) as i64 }
    }

    /// The whole number `n`, which always fits.
    #[verifier::when_used_as_spec(spec_from_int)]
    pub fn from_int(n: i32) -> (r: Fixed)
        ensures
            r == Fixed::spec_from_int(n),
            r@ == n * SCALE,
    {
        let wide: i64 = n as i64;
        Fixed { raw: wide * SCALE }
    }

    pub open spec fn spec_from_nanos(nanos: u64) -> Fixed {
        Fixed { raw: saturate(nanos as int) as i64 }
    }

    /// A span of `nanos` nanoseconds, in seconds, saturated.
    #[verifier::when_used_as_spec(spec_from_nanos)]
    pub fn from_nanos(nanos: u64) -> (r: Fixed)
        ensures
            r == Fixed::spec_from_nanos(nanos),
    {
        if nanos > 0x7fff_ffff_ffff_ffff {
            Fixed { raw: i64::MAX }
        } else {
            Fixed { raw: nanos as i64 }
        }
    }

    pub open spec fn spec_add(self, rhs: Fixed) -> Fixed {
        Fixed { raw: saturate(self@ + rhs@) as i64 }
    }

    /// The sum, saturated.
    #[verifier::when_used_as_spec(spec_add)]
    pub fn add(self, rhs: Fixed) -> (r: Fixed)
        ensures
            r == self.spec_add(rhs),
    {
        let wide: i128 = self.raw as i128 + rhs.raw as i128;
        if wide > i64::MAX as i128 {
            Fixed { raw: i64::MAX }
        } else if wide < i64::MIN as i128 {
            Fixed { raw: i64::MIN }
        } else {
            Fixed { raw: wide as i64 }
        }
    }

    pub open spec fn spec_sub(self, rhs: Fixed) -> Fixed {
        Fixed { raw: saturate(self@ - rhs@) as i64 }
    }

    /// The difference, saturated.
    #[verifier::when_used_as_spec(spec_sub)]
    pub fn sub(self, rhs: Fixed) -> (r: Fixed)
        ensures
            r == self.spec_sub(rhs),
    {
        let wide: i128 = self.raw as i128 - rhs.raw as i128;
        if wide > i64::MAX as i128 {
            Fixed { raw: i64::MAX }
        } else if wide < i64::MIN as i128 {
            Fixed { raw: i64::MIN }
        } else {
            Fixed { raw: wide as i64 }
        }
    }

    pub open spec fn spec_neg(self) -> Fixed {
        Fixed { raw: saturate(-self@) as i64 }
    }

    /// The number with its sign turned, saturated: the least number turns
    /// into the greatest.
    #[verifier::when_used_as_spec(spec_neg)]
    pub fn neg(self) -> (r: Fixed)
        ensures
            r == self.spec_neg(),
    {
        if self.raw == i64::MIN {
            Fixed { raw: i64::MAX }
        } else {
            Fixed { raw: -self.raw }
        }
    }

    pub open spec fn spec_mul(self, rhs: Fixed) -> Fixed {
        Fixed { raw: saturate(trunc_div(self@ * rhs@, SCALE as int)) as i64 }
    }

    /// The product, rounded toward zero and saturated.
    #[verifier::when_used_as_spec(spec_mul)]
    pub fn mul(self, rhs: Fixed) -> (r: Fixed)
        ensures
            r == self.spec_mul(rhs),
    {
        Fixed { raw: mul_div(self.raw, rhs.raw, SCALE) }
    }

    pub open spec fn spec_div(self, rhs: Fixed) -> Fixed
        recommends
            rhs@ != 0,
    {
        Fixed { raw: saturate(trunc_div(self@ * SCALE, rhs@)) as i64 }
    }

    /// The quotient, rounded toward zero and saturated.
    #[verifier::when_used_as_spec(spec_div)]
    pub fn div(self, rhs: Fixed) -> (r: Fixed)
        requires
            rhs@ != 0,
        ensures
            r == self.spec_div(rhs),
    {
        Fixed { raw: mul_div(self.raw, SCALE, rhs.raw) }
    }

    pub open spec fn spec_lt(self, rhs: Fixed) -> bool {
        self@ < rhs@
    }

    /// Whether this number is below `rhs`.
    #[verifier::when_used_as_spec(spec_lt)]
    pub fn lt(self, rhs: Fixed) -> (r: bool)
        ensures
            r == (self@ < rhs@),
    {
        self.raw < rhs.raw
    }

    pub open spec fn spec_le(self, rhs: Fixed) -> bool {
        self@ <= rhs@
    }

    /// Whether this number is at most `rhs`.
    #[verifier::when_used_as_spec(spec_le)]
    pub fn le(self, rhs: Fixed) -> (r: bool)
        ensures
            r == (self@ <= rhs@),
    {
        self.raw <= rhs.raw
    }

    pub open spec fn spec_gt(self, rhs: Fixed) -> bool {
        self@ > rhs@
    }

    /// Whether this number is above `rhs`.
    #[verifier::when_used_as_spec(spec_gt)]
    pub fn gt(self, rhs: Fixed) -> (r: bool)
        ensures
            r == (self@ > rhs@),
    {
        self.raw > rhs.raw
    }

    pub open spec fn spec_clamp_symmetric(self, bound: Fixed) -> Fixed
        recommends
            bound@ >= 0,
    {
        if self@ > bound@ {
            bound
        } else if self@ < -bound@ {
            Fixed { raw: (-bound@) as i64 }
        } else {
            self
        }
    }

    /// The nearest number whose size does not exceed `bound`.
    #[verifier::when_used_as_spec(spec_clamp_symmetric)]
    pub fn clamp_symmetric(self, bound: Fixed) -> (r: Fixed)
        requires
            bound@ >= 0,
        ensures
            r == self.spec_clamp_symmetric(bound),
            -bound@ <= r@ <= bound@,
    {
        if self.raw > bound.raw {
            bound
        } else if self.raw < -bound.raw {
            Fixed { raw: -bound.raw }
        } else {
            self
        }
    }
}

/// Zero times anything, and anything times zero, is zero.
pub proof fn lemma_mul_zero(x: Fixed)
    ensures
        x.mul(Fixed::zero()) == Fixed::zero(),
        Fixed::zero().mul(x) == Fixed::zero(),
{
    lemma_product_sign(x@, 0);
    lemma_product_sign(0, x@);
}

/// Zero divided by anything but zero is zero.
pub proof fn lemma_zero_div(x: Fixed)
    requires
        x@ != 0,
    ensures
        Fixed::zero().div(x) == Fixed::zero(),
{
    lemma_product_sign(0, SCALE as int);
}

/// Adding zero, or taking zero away, changes nothing.
pub proof fn lemma_add_zero(x: Fixed)
    ensures
        x.add(Fixed::zero()) == x,
        Fixed::zero().add(x) == x,
        x.sub(Fixed::zero()) == x,
{
}

/// A number less itself is zero.
pub proof fn lemma_sub_self(x: Fixed)
    ensures
        x.sub(x) == Fixed::zero(),
{
}

} // verus!
