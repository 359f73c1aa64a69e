//! Concatenation and repetition: how one parameter on `[0, 1]` is handed on
//! to one of `n` equal pieces.

use vstd::prelude::*;
use crate::param::{cross, in_unit, ratio_eq, T};

verus! {

/// The piece that `t` falls in when `[0, 1]` is cut into `n` equal pieces:
/// the first at the exact start, the last at the exact end, and `floor(n·t)`
/// in between.
pub open spec fn piece_index(n: nat, t: (nat, nat)) -> nat {
    if t.0 == 0 {
        0
    } else if t.0 == t.1 {
        (n - 1) as nat
    } else {
        (n * t.0) / t.1
    }
}

/// The parameter handed to that piece: its own start at the exact start, its
/// own end at the exact end, and the fractional part of `n·t` in between.
pub open spec fn piece_local(n: nat, t: (nat, nat)) -> (nat, nat) {
    if t.0 == 0 {
        (0, 1)
    } else if t.0 == t.1 {
        (1, 1)
    } else {
        ((n * t.0) % t.1, t.1)
    }
}

/// The whole starts where its first piece starts and ends where its last
/// piece ends: the exact start goes to the first piece at its own start, the
/// exact end to the last piece at its own end.
pub proof fn lemma_ends_go_to_end_pieces(n: nat, d: nat)
    requires
        n > 0,
        d > 0,
    ensures
        piece_index(n, (0, d)) == 0,
        piece_local(n, (0, d)) == (0nat, 1nat),
        piece_index(n, (d, d)) == n - 1,
        piece_local(n, (d, d)) == (1nat, 1nat),
{
}

/// Nothing is lost in handing a parameter on: piece `i` at local parameter
/// `x` stands for `(i + x) / n`, which is the parameter `t` itself.
pub proof fn lemma_piece_reassembles(n: nat, t: (nat, nat))
    requires
        n > 0,
        in_unit(t),
    ensures
        ratio_eq(
            (piece_index(n, t) * piece_local(n, t).1 + piece_local(n, t).0, n * piece_local(n, t).1),
            t,
        ),
{
    let (num, d) = t;
    if num == 0 {
        assert(0 * d == 0 * (n * 1));
    } else if num == d {
        assert(((n - 1) * 1 + 1) * d == d * (n * 1)) by (nonlinear_arith)
            requires
                n > 0,
        ;
    } else {
        let x = n * num;
        vstd::arithmetic::div_mod::lemma_fundamental_div_mod(x as int, d as int);
        assert((x / d) * d + x % d == x) by (nonlinear_arith)
            requires
                x == d * (x / d) + x % d,
        ;
        assert(x * d == num * (n * d)) by (nonlinear_arith)
            requires
                x == n * num,
        ;
    }
}

/// Playing one curve `n` times: the parameter `(k + x) / n` reaches
/// repetition `k` with local parameter `x`, for every `k < n` and every `x`
/// in `[0, 1]` given as `a / b`. Where `x` is one and `k` is not the last
/// repetition the point is the joint with the next repetition, which starts
/// it over at zero; the law holds everywhere else.
pub proof fn lemma_repeat_replays(n: nat, k: nat, a: nat, b: nat)
    requires
        k < n,
        0 < b,
        a <= b,
        !(a == b && k + 1 < n),
    ensures
        piece_index(n, (k * b + a, n * b)) == k,
        ratio_eq(piece_local(n, (k * b + a, n * b)), (a, b)),
{
    let t = ((k * b + a) as nat, n * b);
    if t.0 == 0 {
        assert(k * b == 0);
        assert(k == 0) by (nonlinear_arith)
            requires
                k * b == 0,
                b > 0,
        ;
        assert(0 * b == a * 1nat);
    } else if t.0 == t.1 {
        assert(k * b + a == n * b);
        if a < b {
            assert(false) by (nonlinear_arith)
                requires
                    k * b + a == n * b,
                    a < b,
                    k < n,
                    0 <= a,
            ;
        }
        assert(k + 1 == n) by (nonlinear_arith)
            requires
                k * b + b == n * b,
                b > 0,
        ;
        assert(1 * b == a * 1nat);
    } else {
        if a == b {
            assert(k * b + b == n * b) by (nonlinear_arith)
                requires
                    k + 1 == n,
            ;
        }
        let x = n * t.0;
        let d = t.1;
        assert(x == k * d + n * a) by (nonlinear_arith)
            requires
                x == n * (k * b + a),
                d == n * b,
        ;
        assert(n * a < d) by (nonlinear_arith)
            requires
                a < b,
                d == n * b,
                n > 0,
        ;
        vstd::arithmetic::div_mod::lemma_fundamental_div_mod_converse(
            x as int,
            d as int,
            k as int,
            (n * a) as int,
        );
        assert((n * a) * b == a * (n * b)) by (nonlinear_arith);
    }
}

/// Finds the piece of `n` equal pieces that `t` falls in, and the parameter
/// within that piece.
pub fn locate_piece(n: usize, t: T) -> (r: (usize, T))
    requires
        n > 0,
    ensures
        r.0 < n,
        r.0 == piece_index(n as nat, t@),
        r.1@ == piece_local(n as nat, t@),
{
    if t.is_start() {
        return (0, T::start());
    }
    if t.is_end() {
        return (n - 1, T::end());
    }
    let num = t.numerator();
    let den = t.denominator();
    let scaled = cross(n as u64, num);
    let den_wide = den as u128;
    let index = scaled / den_wide;
    let local = scaled % den_wide;
    proof {
        let (x, d, m) = (scaled as int, den as int, n as int);
        vstd::arithmetic::div_mod::lemma_fundamental_div_mod(x, d);
        assert(x < m * d) by (nonlinear_arith)
            requires
                x == m * num,
                num < d,
                m > 0,
        ;
        assert(x / d < m) by (nonlinear_arith)
            requires
                x == d * (x / d) + x % d,
                x % d >= 0,
                x < m * d,
                d > 0,
        ;
    }
    (index as usize, T::from_parts(local as u64, den))
}

/// The concatenation of several curves: each owns an equal share of `[0, 1]`,
/// in order.
pub struct Concat<F> {
    pub functions: Vec<F>,
}

impl<F> Concat<F> {
    /// Which curve a parameter on the whole is handed to, and with which
    /// parameter of its own.
    pub fn locate(&self, t: T) -> (r: (usize, T))
        requires
            self.functions.len() > 0,
        ensures
            r.0 < self.functions.len(),
            r.0 == piece_index(self.functions.len() as nat, t@),
            r.1@ == piece_local(self.functions.len() as nat, t@),
    {
        locate_piece(self.functions.len(), t)
    }
}

/// One curve played `n` times in a row over `[0, 1]`: the concatenation of
/// `n` uses of the same curve.
pub struct Repeat<F> {
    pub function: F,
    pub n: usize,
}

impl<F> Repeat<F> {
    /// Which repetition a parameter on the whole falls in, and the parameter
    /// handed to the repeated curve.
    pub fn locate(&self, t: T) -> (r: (usize, T))
        requires
            self.n > 0,
        ensures
            r.0 < self.n,
            r.0 == piece_index(self.n as nat, t@),
            r.1@ == piece_local(self.n as nat, t@),
    {
        locate_piece(self.n, t)
    }
}

} // verus!
