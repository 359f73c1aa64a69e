//! Bezier splines: a run of points cut into Bezier pieces of one order.

use vstd::prelude::*;
use crate::concat::{locate_piece, piece_index, piece_local};
use crate::param::T;

verus! {

/// How many pieces of order `k` a run of `len` points holds: windows of
/// `k + 1` points, each starting where the one before ended.
pub open spec fn window_count(len: nat, k: nat) -> nat
    recommends
        k > 0,
{
    if len > k {
        ((len - 1) as nat) / k
    } else {
        0
    }
}

/// The `order + 1` points from index `start` on.
fn window_at<P: Copy>(points: &Vec<P>, start: usize, order: usize) -> (r: Vec<P>)
    requires
        start + order < points@.len(),
    ensures
        r@ == points@.subrange(start as int, start + order + 1),
{
    let len = points.len();
    let mut window: Vec<P> = Vec::new();
    let mut j: usize = start;
    while j <= start + order
        invariant
            len == points@.len(),
            start + order < len,
            start <= j <= start + order + 1,
            window@ == points@.subrange(start as int, j as int),
        decreases start + order + 1 - j,
    {
        window.push(points[j]);
        j = j + 1;
    }
    window
}

/// Cuts `points` into windows of `order + 1` points that start at indices
/// `0, order, 2·order, ...`, so that each window shares its last point with
/// the next window's first. Points after the last whole window are left out.
pub fn spline_windows<P: Copy>(points: &Vec<P>, order: usize) -> (r: Vec<Vec<P>>)
    requires
        order > 0,
    ensures
        r@.len() == window_count(points@.len(), order as nat),
        r@.len() == 0 || r@.len() * order < points@.len(),
        r@.len() * order + order >= points@.len(),
        forall|i: int|
            0 <= i < r@.len() ==> (#[trigger] r@[i])@ == points@.subrange(
                i * order,
                i * order + order + 1,
            ),
{
    let len = points.len();
    let mut r: Vec<Vec<P>> = Vec::new();
    let mut start: usize = 0;
    assert(0 * order == 0) by (nonlinear_arith);
    while start < len && len - start > order
        invariant
            order > 0,
            len == points@.len(),
            start == r@.len() * order,
            start <= len,
            r@.len() == 0 || start < len,
            forall|i: int|
                0 <= i < r@.len() ==> (#[trigger] r@[i])@ == points@.subrange(
                    i * order,
                    i * order + order + 1,
                ),
        decreases len - start,
    {
        let window = window_at(points, start, order);
        proof {
            let m = r@.len();
            assert((m + 1) * order == m * order + order) by (nonlinear_arith);
        }
        r.push(window);
        start = start + order;
    }
    proof {
        let m = r@.len();
        assert((m + 1) * order == m * order + order) by (nonlinear_arith);
        if len > order {
            vstd::arithmetic::div_mod::lemma_fundamental_div_mod_converse(
                (len - 1) as int,
                order as int,
                m as int,
                (len - 1 - start) as int,
            );
            assert(window_count(len as nat, order as nat) == m);
        } else if m > 0 {
            assert(m * order >= order) by (nonlinear_arith)
                requires
                    m > 0,
            ;
        }
    }
    r
}

/// The piece of a spline that `t` falls in, and the parameter handed to it:
/// the spline is the concatenation of its windows of `order + 1` points.
pub fn spline_piece<P: Copy>(points: &Vec<P>, order: usize, t: T) -> (r: (Vec<P>, T))
    requires
        order > 0,
        window_count(points@.len(), order as nat) > 0,
    ensures
        ({
            let i = piece_index(window_count(points@.len(), order as nat), t@);
            &&& i < window_count(points@.len(), order as nat)
            &&& r.0@ == points@.subrange(i * order, i * order + order + 1)
            &&& r.1@ == piece_local(window_count(points@.len(), order as nat), t@)
        }),
{
    let len = points.len();
    let count = (len - 1) / order;
    let (i, local) = locate_piece(count, t);
    proof {
        assert(i * order + order <= count * order) by (nonlinear_arith)
            requires
                i < count,
        ;
        let (x, d, q) = ((len - 1) as int, order as int, count as int);
        vstd::arithmetic::div_mod::lemma_fundamental_div_mod(x, d);
        assert(q * d <= x) by (nonlinear_arith)
            requires
                q == x / d,
                x == d * (x / d) + x % d,
                x % d >= 0,
        ;
    }
    let window = window_at(points, i * order, order);
    (window, local)
}

/// A spline of second-order Bezier pieces: points `0, 1, 2`, then `2, 3, 4`,
/// and so on.
pub struct BezierSecondSpline<P> {
    pub points: Vec<P>,
}

impl<P: Copy> BezierSecondSpline<P> {
    /// The spline through `points`.
    pub fn new(points: Vec<P>) -> (r: Self)
        ensures
            r.points == points,
    {
        Self { points }
    }

    /// The start, control and end points of each piece, in order.
    pub fn pieces(&self) -> (r: Vec<Vec<P>>)
        ensures
            r@.len() == window_count(self.points@.len(), 2),
            forall|i: int|
                0 <= i < r@.len() ==> (#[trigger] r@[i])@ == self.points@.subrange(2 * i, 2 * i + 3),
    {
        spline_windows(&self.points, 2)
    }

    /// The piece that `t` falls in and the parameter handed to it.
    pub fn piece(&self, t: T) -> (r: (Vec<P>, T))
        requires
            self.points@.len() >= 3,
        ensures
            ({
                let n = window_count(self.points@.len(), 2);
                let i = piece_index(n, t@);
                &&& i < n
                &&& r.0@ == self.points@.subrange((2 * i) as int, (2 * i + 3) as int)
                &&& r.1@ == piece_local(n, t@)
            }),
    {
        spline_piece(&self.points, 2, t)
    }
}

/// A spline of third-order Bezier pieces: points `0, 1, 2, 3`, then `3, 4, 5, 6`,
/// and so on.
pub struct BezierThirdSpline<P> {
    pub points: Vec<P>,
}

impl<P: Copy> BezierThirdSpline<P> {
    /// The spline through `points`.
    pub fn new(points: Vec<P>) -> (r: Self)
        ensures
            r.points == points,
    {
        Self { points }
    }

    /// The start, two control and end points of each piece, in order.
    pub fn pieces(&self) -> (r: Vec<Vec<P>>)
        ensures
            r@.len() == window_count(self.points@.len(), 3),
            forall|i: int|
                0 <= i < r@.len() ==> (#[trigger] r@[i])@ == self.points@.subrange(3 * i, 3 * i + 4),
    {
        spline_windows(&self.points, 3)
    }

    /// The piece that `t` falls in and the parameter handed to it.
    pub fn piece(&self, t: T) -> (r: (Vec<P>, T))
        requires
            self.points@.len() >= 4,
        ensures
            ({
                let n = window_count(self.points@.len(), 3);
                let i = piece_index(n, t@);
                &&& i < n
                &&& r.0@ == self.points@.subrange((3 * i) as int, (3 * i + 4) as int)
                &&& r.1@ == piece_local(n, t@)
            }),
    {
        spline_piece(&self.points, 3, t)
    }
}

/// A spline of fourth-order Bezier pieces: points `0` to `4`, then `4` to `8`,
/// and so on.
pub struct BezierFourthSpline<P> {
    pub points: Vec<P>,
}

impl<P: Copy> BezierFourthSpline<P> {
    /// The spline through `points`.
    pub fn new(points: Vec<P>) -> (r: Self)
        ensures
            r.points == points,
    {
        Self { points }
    }

    /// The start, three control and end points of each piece, in order.
    pub fn pieces(&self) -> (r: Vec<Vec<P>>)
        ensures
            r@.len() == window_count(self.points@.len(), 4),
            forall|i: int|
                0 <= i < r@.len() ==> (#[trigger] r@[i])@ == self.points@.subrange(4 * i, 4 * i + 5),
    {
        spline_windows(&self.points, 4)
    }

    /// The piece that `t` falls in and the parameter handed to it.
    pub fn piece(&self, t: T) -> (r: (Vec<P>, T))
        requires
            self.points@.len() >= 5,
        ensures
            ({
                let n = window_count(self.points@.len(), 4);
                let i = piece_index(n, t@);
                &&& i < n
                &&& r.0@ == self.points@.subrange((4 * i) as int, (4 * i + 5) as int)
                &&& r.1@ == piece_local(n, t@)
            }),
    {
        spline_piece(&self.points, 4, t)
    }
}

} // verus!
