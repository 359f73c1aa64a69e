//! The curve parameter: an exact fraction in the unit interval.

use vstd::prelude::*;

verus! {

/// Two fractions, each written `(numerator, denominator)`, stand for the same
/// number.
pub open spec fn ratio_eq(p: (nat, nat), q: (nat, nat)) -> bool {
    p.0 * q.1 == q.0 * p.1
}

/// `p` stands for a smaller number than `q`.
pub open spec fn ratio_lt(p: (nat, nat), q: (nat, nat)) -> bool {
    p.0 * q.1 < q.0 * p.1
}

/// A fraction with a positive denominator that lies in `[0, 1]`.
pub open spec fn in_unit(p: (nat, nat)) -> bool {
    0 < p.1 && p.0 <= p.1
}

/// Progress along a curve, held exactly as `num / den` and always in `[0, 1]`.
///
/// Construction clamps: values at or below zero become `0/1`, values at or
/// above one become `1/1`.
#[derive(Clone, Copy, Debug)]
pub struct T {
    num: u64,
    den: u64,
}

impl View for T {
    type V = (nat, nat);

    closed spec fn view(&self) -> (nat, nat) {
        (self.num as nat, self.den as nat)
    }
}

impl T {
    #[verifier::type_invariant]
    spec fn inv(self) -> bool {
        0 < self.den && self.num <= self.den
    }

    /// The parameter `num / den`, clamped into `[0, 1]`.
    pub fn new(num: i64, den: u64) -> (r: T)
        requires
            den > 0,
        ensures
            num <= 0 ==> r@ == (0nat, 1nat),
            num >= den ==> r@ == (1nat, 1nat),
            0 < num < den ==> r@ == (num as nat, den as nat),
    {
        if num <= 0 {
            return T { num: 0, den: 1 };
        }
        if num as u64 >= den {
            return T { num: 1, den: 1 };
        }
        T { num: num as u64, den }
    }

    /// The parameter `num / den` from parts already known to lie in `[0, 1]`.
    pub(crate) fn from_parts(num: u64, den: u64) -> (r: T)
        requires
            0 < den,
            num <= den,
        ensures
            r@ == (num as nat, den as nat),
    {
        T { num, den }
    }

    /// The start of every curve: zero.
    pub fn start() -> (r: T)
        ensures
            r@ == (0nat, 1nat),
    {
        T { num: 0, den: 1 }
    }

    /// The end of every curve: one.
    pub fn end() -> (r: T)
        ensures
            r@ == (1nat, 1nat),
    {
        T { num: 1, den: 1 }
    }

    /// The numerator of the fraction.
    pub fn numerator(&self) -> (r: u64)
        ensures
            r == self@.0,
    {
        self.num
    }

    /// The denominator of the fraction: positive, and never below the
    /// numerator.
    pub fn denominator(&self) -> (r: u64)
        ensures
            r == self@.1,
            r > 0,
            self@.0 <= r,
    {
        proof {
            use_type_invariant(self);
        }
        self.den
    }

    /// Whether this is the start of the curve (the value zero).
    pub fn is_start(&self) -> (r: bool)
        ensures
            r == (self@.0 == 0),
    {
        self.num == 0
    }

    /// Whether this is the end of the curve (the value one).
    pub fn is_end(&self) -> (r: bool)
        ensures
            r == (self@.0 == self@.1),
    {
        self.num == self.den
    }
}

impl PartialEq for T {
    fn eq(&self, o: &T) -> (r: bool) {
        cross(self.num, o.den) == cross(o.num, self.den)
    }
}

/// The exact product of two 64-bit values.
pub(crate) fn cross(a: u64, b: u64) -> (r: u128)
    ensures
        r == a * b,
{
    proof {
        assert(a * b <= 0xffff_ffff_ffff_ffffnat * 0xffff_ffff_ffff_ffffnat) by (nonlinear_arith)
            requires
                a <= 0xffff_ffff_ffff_ffffnat,
                b <= 0xffff_ffff_ffff_ffffnat,
        ;
    }
    (a as u128) * (b as u128)
}

impl vstd::std_specs::cmp::PartialEqSpecImpl for T {
    open spec fn obeys_eq_spec() -> bool {
        true
    }

    open spec fn eq_spec(&self, o: &T) -> bool {
        ratio_eq(self@, o@)
    }
}

} // verus!
