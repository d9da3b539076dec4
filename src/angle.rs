use vstd::prelude::*;
use crate::decimal::{decimal_text, push_padded_decimal};

verus! {

/// Number of degrees in a full turn.
pub const DEG_PERIOD: i32 = 360;

/// `x` reduced into `[0, period)`: its remainder by `period`, moved up by one
/// period when negative (the Euclidean remainder, which is what `%` means here).
pub open spec fn wrap(x: int, period: int) -> int
    recommends
        period > 0,
{
    x % period
}

/// An angle in whole degrees that always lies in `[0, 360)`.
///
/// Every construction and every arithmetic result is wrapped back into range, so
/// no value outside it can be observed.
#[derive(Debug, Clone, Copy, PartialEq, Eq, Structural, PartialOrd, Ord, Hash)]
pub struct Deg {
    deg: i32,
}

impl View for Deg {
    type V = int;

    closed spec fn view(&self) -> int {
        self.deg as int
    }
}

impl Deg {
    #[verifier::type_invariant]
    spec fn in_range(self) -> bool {
        0 <= self.deg < 360
    }

    /// Builds the angle `degrees` wrapped into `[0, 360)`.
    pub fn new(degrees: i32) -> (r: Deg)
        ensures
            r@ == wrap(degrees as int, 360),
    {
        let a: i32 = degrees % DEG_PERIOD;
        let w: i32 = if a < 0 { a + DEG_PERIOD } else { a };
        Deg { deg: w }
    }

    /// The payload, in `[0, 360)`.
    pub fn value(&self) -> (r: i32)
        ensures
            r == self@,
            0 <= r < 360,
    {
        proof {
            use_type_invariant(self);
        }
        self.deg
    }

    /// The payload in decimal.
    pub fn to_string(&self) -> (s: String)
        ensures
            s@ == decimal_text(self@ as nat),
    {
        let d = self.value();
        let mut s = String::new();
        push_padded_decimal(&mut s, d as u16, 0);
        assert(s@ =~= decimal_text(self@ as nat));
        s
    }

    /// The angle of zero degrees.
    pub fn zero() -> (r: Deg)
        ensures
            r@ == 0,
    {
        Deg { deg: 0 }
    }

    /// The angle of half a turn.
    pub fn half_turn() -> (r: Deg)
        ensures
            r@ == 180,
    {
        Deg { deg: 180 }
    }

    /// The angle that completes this one to a full turn: `360 - self`, wrapped.
    pub fn inv(self) -> (r: Deg)
        ensures
            r@ == wrap(360 - self@, 360),
    {
        let d = self.value();
        Deg::new(DEG_PERIOD - d)
    }

    /// Sum of two angles, wrapped.
    pub fn add(self, rhs: Deg) -> (r: Deg)
        ensures
            r@ == wrap(self@ + rhs@, 360),
    {
        let a = self.value();
        let b = rhs.value();
        Deg::new(a + b)
    }

    /// Difference of two angles, wrapped.
    pub fn sub(self, rhs: Deg) -> (r: Deg)
        ensures
            r@ == wrap(self@ - rhs@, 360),
    {
        let a = self.value();
        let b = rhs.value();
        Deg::new(a - b)
    }

    /// Product of two angles, wrapped.
    pub fn mul(self, rhs: Deg) -> (r: Deg)
        ensures
            r@ == wrap(self@ * rhs@, 360),
    {
        let a = self.value();
        let b = rhs.value();
        assert(0 <= a * b <= 359 * 359) by (nonlinear_arith)
            requires
                0 <= a < 360,
                0 <= b < 360,
        ;
        Deg::new(a * b)
    }

    /// Quotient of two angles (rounded toward zero), wrapped.
    pub fn div(self, rhs: Deg) -> (r: Deg)
        requires
            rhs@ != 0,
        ensures
            r@ == wrap(self@ / rhs@, 360),
    {
        let a = self.value();
        let b = rhs.value();
        Deg::new(a / b)
    }

    /// Remainder of one angle by another, wrapped.
    pub fn rem(self, rhs: Deg) -> (r: Deg)
        requires
            rhs@ != 0,
        ensures
            r@ == wrap(self@ % rhs@, 360),
    {
        let a = self.value();
        let b = rhs.value();
        Deg::new(a % b)
    }

    /// In-place sum, wrapped.
    pub fn add_assign(&mut self, rhs: Deg)
        ensures
            final(self)@ == wrap(old(self)@ + rhs@, 360),
    {
        *self = self.add(rhs);
    }

    /// In-place difference, wrapped.
    pub fn sub_assign(&mut self, rhs: Deg)
        ensures
            final(self)@ == wrap(old(self)@ - rhs@, 360),
    {
        *self = self.sub(rhs);
    }

    /// In-place product, wrapped.
    pub fn mul_assign(&mut self, rhs: Deg)
        ensures
            final(self)@ == wrap(old(self)@ * rhs@, 360),
    {
        *self = self.mul(rhs);
    }

    /// In-place quotient, wrapped.
    pub fn div_assign(&mut self, rhs: Deg)
        requires
            rhs@ != 0,
        ensures
            final(self)@ == wrap(old(self)@ / rhs@, 360),
    {
        *self = self.div(rhs);
    }

    /// In-place remainder, wrapped.
    pub fn rem_assign(&mut self, rhs: Deg)
        requires
            rhs@ != 0,
        ensures
            final(self)@ == wrap(old(self)@ % rhs@, 360),
    {
        *self = self.rem(rhs);
    }

    /// Builds an angle from any `i64`: `None` where the value does not fit the
    /// `i32` payload, else the value wrapped into `[0, 360)`.
    pub fn from_i64(n: i64) -> (r: Option<Deg>)
        ensures
            (i32::MIN <= n <= i32::MAX) <==> r.is_some(),
            r matches Some(d) ==> d@ == wrap(n as int, 360),
    {
        match cast_i64_to_i32(n) {
            Some(v) => Some(Deg::new(v)),
            None => None,
        }
    }

    /// The payload as a `u8`, where it fits.
    pub fn to_u8(&self) -> (r: Option<u8>)
        ensures
            self@ <= u8::MAX <==> r.is_some(),
            r matches Some(v) ==> v as int == self@,
    {
        let d = self.value();
        cast_i32_to_u8(d)
    }

    /// Builds an angle from any `u64`: `None` where the value does not fit the
    /// `i32` payload, else the value wrapped into `[0, 360)`.
    pub fn from_u64(n: u64) -> (r: Option<Deg>)
        ensures
            (n <= i32::MAX) <==> r.is_some(),
            r matches Some(d) ==> d@ == wrap(n as int, 360),
    {
        match cast_u64_to_i32(n) {
            Some(v) => Some(Deg::new(v)),
            None => None,
        }
    }

    /// The payload as an `i64`; it always fits.
    pub fn to_i64(&self) -> (r: Option<i64>)
        ensures
            r == Some(self@ as i64),
    {
        let d = self.value();
        cast_i32_to_i64(d)
    }

    /// The payload as a `u16`; every angle fits.
    pub fn to_u16(&self) -> (r: Option<u16>)
        ensures
            r == Some(self@ as u16),
    {
        let d = self.value();
        cast_i32_to_u16(d)
    }
}

impl Default for Deg {
    /// The angle of zero degrees.
    fn default() -> (r: Deg)
        ensures
            r@ == 0,
    {
        Deg { deg: 0 }
    }
}

/// An angle in whole degrees with a 16-bit payload, always in `[0, 360)`.
///
/// Every construction and every arithmetic result is wrapped back into range;
/// intermediate results are computed in 32 bits, so none overflows.
#[derive(Debug, Clone, Copy, PartialEq, Eq, Structural, PartialOrd, Ord, Hash)]
pub struct Deg16 {
    deg: i16,
}

impl View for Deg16 {
    type V = int;

    closed spec fn view(&self) -> int {
        self.deg as int
    }
}

impl Default for Deg16 {
    /// The angle of zero degrees.
    fn default() -> (r: Deg16)
        ensures
            r@ == 0,
    {
        Deg16 { deg: 0 }
    }
}

impl Deg16 {
    #[verifier::type_invariant]
    spec fn in_range(self) -> bool {
        0 <= self.deg < 360
    }

    /// Builds the angle `degrees` wrapped into `[0, 360)`.
    pub fn new(degrees: i16) -> (r: Deg16)
        ensures
            r@ == wrap(degrees as int, 360),
    {
        Deg16::from_wide(degrees as i32)
    }

    fn from_wide(degrees: i32) -> (r: Deg16)
        ensures
            r@ == wrap(degrees as int, 360),
    {
        let a: i32 = degrees % DEG_PERIOD;
        let w: i32 = if a < 0 { a + DEG_PERIOD } else { a };
        Deg16 { deg: w as i16 }
    }

    /// The payload, in `[0, 360)`.
    pub fn value(&self) -> (r: i16)
        ensures
            r == self@,
            0 <= r < 360,
    {
        proof {
            use_type_invariant(self);
        }
        self.deg
    }

    /// The same angle with a 32-bit payload.
    pub fn to_deg(&self) -> (r: Deg)
        ensures
            r@ == self@,
    {
        let d = self.value();
        Deg::new(d as i32)
    }

    /// Builds an angle from any `i64`: `None` where the value does not fit the
    /// `i16` payload, else the value wrapped into `[0, 360)`.
    pub fn from_i64(n: i64) -> (r: Option<Deg16>)
        ensures
            (i16::MIN <= n <= i16::MAX) <==> r.is_some(),
            r matches Some(d) ==> d@ == wrap(n as int, 360),
    {
        match cast_i64_to_i16(n) {
            Some(v) => Some(Deg16::new(v)),
            None => None,
        }
    }

    /// The angle that completes this one to a full turn: `360 - self`, wrapped.
    pub fn inv(self) -> (r: Deg16)
        ensures
            r@ == wrap(360 - self@, 360),
    {
        let d = self.value() as i32;
        Deg16::from_wide(DEG_PERIOD - d)
    }

    /// Sum of two angles, wrapped.
    pub fn add(self, rhs: Deg16) -> (r: Deg16)
        ensures
            r@ == wrap(self@ + rhs@, 360),
    {
        let a = self.value() as i32;
        let b = rhs.value() as i32;
        Deg16::from_wide(a + b)
    }

    /// Difference of two angles, wrapped.
    pub fn sub(self, rhs: Deg16) -> (r: Deg16)
        ensures
            r@ == wrap(self@ - rhs@, 360),
    {
        let a = self.value() as i32;
        let b = rhs.value() as i32;
        Deg16::from_wide(a - b)
    }

    /// Product of two angles, wrapped.
    pub fn mul(self, rhs: Deg16) -> (r: Deg16)
        ensures
            r@ == wrap(self@ * rhs@, 360),
    {
        let a = self.value() as i32;
        let b = rhs.value() as i32;
        assert(0 <= a * b <= 359 * 359) by (nonlinear_arith)
            requires
                0 <= a < 360,
                0 <= b < 360,
        ;
        Deg16::from_wide(a * b)
    }

    /// Quotient of two angles (rounded toward zero), wrapped.
    pub fn div(self, rhs: Deg16) -> (r: Deg16)
        requires
            rhs@ != 0,
        ensures
            r@ == wrap(self@ / rhs@, 360),
    {
        let a = self.value() as i32;
        let b = rhs.value() as i32;
        Deg16::from_wide(a / b)
    }

    /// Remainder of one angle by another, wrapped.
    pub fn rem(self, rhs: Deg16) -> (r: Deg16)
        requires
            rhs@ != 0,
        ensures
            r@ == wrap(self@ % rhs@, 360),
    {
        let a = self.value() as i32;
        let b = rhs.value() as i32;
        Deg16::from_wide(a % b)
    }

    /// In-place sum, wrapped.
    pub fn add_assign(&mut self, rhs: Deg16)
        ensures
            final(self)@ == wrap(old(self)@ + rhs@, 360),
    {
        *self = self.add(rhs);
    }

    /// In-place difference, wrapped.
    pub fn sub_assign(&mut self, rhs: Deg16)
        ensures
            final(self)@ == wrap(old(self)@ - rhs@, 360),
    {
        *self = self.sub(rhs);
    }

    /// In-place product, wrapped.
    pub fn mul_assign(&mut self, rhs: Deg16)
        ensures
            final(self)@ == wrap(old(self)@ * rhs@, 360),
    {
        *self = self.mul(rhs);
    }

    /// In-place quotient, wrapped.
    pub fn div_assign(&mut self, rhs: Deg16)
        requires
            rhs@ != 0,
        ensures
            final(self)@ == wrap(old(self)@ / rhs@, 360),
    {
        *self = self.div(rhs);
    }

    /// In-place remainder, wrapped.
    pub fn rem_assign(&mut self, rhs: Deg16)
        requires
            rhs@ != 0,
        ensures
            final(self)@ == wrap(old(self)@ % rhs@, 360),
    {
        *self = self.rem(rhs);
    }
}

/// Relies on `num_traits::NumCast::from` for `i32` from `u64`: `Some` of the same
/// value where it is at most `i32::MAX`, else `None`.
#[verifier::external_body]
fn cast_u64_to_i32(n: u64) -> (r: Option<i32>)
    ensures
        (n <= i32::MAX) <==> r.is_some(),
        r matches Some(v) ==> v == n,
{
    <i32 as num_traits::NumCast>::from(n)
}

/// Relies on `num_traits::NumCast::from` for `i16` from `i64`: `Some` of the same
/// value where it lies in `i16`'s range, else `None`.
#[verifier::external_body]
fn cast_i64_to_i16(n: i64) -> (r: Option<i16>)
    ensures
        (i16::MIN <= n <= i16::MAX) <==> r.is_some(),
        r matches Some(v) ==> v == n,
{
    <i16 as num_traits::NumCast>::from(n)
}

/// Relies on `num_traits::ToPrimitive::to_i64` for `i32`: always `Some` of the
/// same value.
#[verifier::external_body]
fn cast_i32_to_i64(n: i32) -> (r: Option<i64>)
    ensures
        r == Some(n as i64),
{
    num_traits::ToPrimitive::to_i64(&n)
}

/// Relies on `num_traits::ToPrimitive::to_u16` for `i32`: `Some` of the same value
/// where it lies in `0..=65535`, else `None`.
#[verifier::external_body]
fn cast_i32_to_u16(n: i32) -> (r: Option<u16>)
    ensures
        (0 <= n <= u16::MAX) <==> r.is_some(),
        r matches Some(v) ==> v == n,
{
    num_traits::ToPrimitive::to_u16(&n)
}

/// Relies on `num_traits::NumCast::from` for `i32`: `Some` of the same value where
/// it lies in `i32`'s range, else `None`.
#[verifier::external_body]
fn cast_i64_to_i32(n: i64) -> (r: Option<i32>)
    ensures
        (i32::MIN <= n <= i32::MAX) <==> r.is_some(),
        r matches Some(v) ==> v == n,
{
    <i32 as num_traits::NumCast>::from(n)
}

/// Relies on `num_traits::ToPrimitive::to_u8` for `i32`: `Some` of the same value
/// where it lies in `0..=255`, else `None`.
#[verifier::external_body]
fn cast_i32_to_u8(n: i32) -> (r: Option<u8>)
    ensures
        (0 <= n <= u8::MAX) <==> r.is_some(),
        r matches Some(v) ==> v == n,
{
    num_traits::ToPrimitive::to_u8(&n)
}

/// Wrapping lands in `[0, period)` and leaves a wrapped value as it is, for every
/// integer `x` and every positive period.
pub proof fn lemma_wrap_in_range_idempotent(x: int, period: int)
    requires
        period > 0,
    ensures
        0 <= wrap(x, period) < period,
        wrap(wrap(x, period), period) == wrap(x, period),
{
    vstd::arithmetic::div_mod::lemma_mod_bound(x, period);
    vstd::arithmetic::div_mod::lemma_small_mod(wrap(x, period) as nat, period as nat);
}

/// Every angle built by `Deg::new` lies in `[0, 360)`, and building an angle from
/// its own payload gives it back.
pub proof fn lemma_deg_canonical(degrees: i32, d: Deg)
    requires
        d@ == wrap(degrees as int, 360),
    ensures
        0 <= d@ < 360,
        wrap(d@, 360) == d@,
{
    lemma_wrap_in_range_idempotent(degrees as int, 360);
}

} // verus!
