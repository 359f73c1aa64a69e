//! Where a curve is sampled: evenly spaced or random parameters.

use vstd::prelude::*;
use crate::param::{ratio_eq, ratio_lt, T};

verus! {

/// The `i`-th of `n + 1` evenly spaced parameters, `i / n`, as the parameter
/// type builds it: the start and the end in their usual form.
pub open spec fn grid_point(i: nat, n: nat) -> (nat, nat) {
    if i == 0 {
        (0, 1)
    } else if i == n {
        (1, 1)
    } else {
        (i, n)
    }
}

/// The `n + 1` parameters `0, 1/n, 2/n, ..., 1`, first and last included.
pub fn linspace_params(n: usize) -> (r: Vec<T>)
    requires
        1 <= n < usize::MAX,
    ensures
        r@.len() == n + 1,
        forall|i: int| 0 <= i <= n ==> #[trigger] r@[i]@ == grid_point(i as nat, n as nat),
        forall|i: int| 0 <= i <= n ==> ratio_eq(#[trigger] r@[i]@, (i as nat, n as nat)),
        forall|i: int| 0 <= i < n ==> ratio_lt(#[trigger] r@[i]@, r@[i + 1]@),
{
    let mut r: Vec<T> = Vec::new();
    let mut i: usize = 0;
    while i <= n
        invariant
            i <= n + 1,
            n < usize::MAX,
            r@.len() == i,
            forall|j: int| 0 <= j < i ==> #[trigger] r@[j]@ == grid_point(j as nat, n as nat),
        decreases n + 1 - i,
    {
        let t = if i == 0 {
            T::start()
        } else if i == n {
            T::end()
        } else {
            T::from_parts(i as u64, n as u64)
        };
        r.push(t);
        i = i + 1;
    }
    assert forall|i: int| 0 <= i <= n implies ratio_eq(#[trigger] r@[i]@, (i as nat, n as nat)) by {
        lemma_grid_point_value(i as nat, n as nat);
    }
    assert forall|i: int| 0 <= i < n implies ratio_lt(#[trigger] r@[i]@, r@[i + 1]@) by {
        lemma_grid_increasing(i as nat, n as nat);
    }
    r
}

/// Each grid point stands for `i / n`.
pub proof fn lemma_grid_point_value(i: nat, n: nat)
    requires
        1 <= n,
        i <= n,
    ensures
        ratio_eq(grid_point(i, n), (i, n)),
{
    if i == 0 {
        assert(0 * n == 0 * 1nat);
    } else if i == n {
        assert(1 * n == n * 1nat);
    } else {
        assert(i * n == i * n);
    }
}

/// The grid points increase strictly: sampling runs forwards along the curve.
pub proof fn lemma_grid_increasing(i: nat, n: nat)
    requires
        1 <= n,
        i < n,
    ensures
        ratio_lt(grid_point(i, n), grid_point(i + 1, n)),
{
    if i == 0 {
        if n == 1 {
            assert(0 * 1nat < 1 * 1nat);
        } else {
            assert(0 * n < 1 * 1nat);
        }
    } else if i + 1 == n {
        assert(i * 1nat < 1 * n);
    } else {
        assert(i * n < (i + 1) * n) by (nonlinear_arith)
            requires
                n >= 1,
        ;
    }
}

/// Relies on rand::random: a `u32` drawn from the thread-local generator.
/// Any value may come back.
#[verifier::external_body]
fn draw_u32() -> (r: u32) {
    rand::random::<u32>()
}

/// A random parameter in `[0, 1)`: a random 32-bit numerator over `2^32`.
pub fn random_param() -> (r: T)
    ensures
        r@.1 == 0x1_0000_0000,
        r@.0 < r@.1,
{
    let bits = draw_u32();
    T::from_parts(bits as u64, 0x1_0000_0000u64)
}

/// `n` independent random parameters, each in `[0, 1)`.
pub fn random_params(n: usize) -> (r: Vec<T>)
    ensures
        r@.len() == n,
        forall|i: int| 0 <= i < n ==> (#[trigger] r@[i]@).1 == 0x1_0000_0000 && r@[i]@.0 < r@[i]@.1,
{
    let mut r: Vec<T> = Vec::new();
    let mut i: usize = 0;
    while i < n
        invariant
            i <= n,
            r@.len() == i,
            forall|j: int| 0 <= j < i ==> (#[trigger] r@[j]@).1 == 0x1_0000_0000 && r@[j]@.0 < r@[j]@.1,
        decreases n - i,
    {
        r.push(random_param());
        i = i + 1;
    }
    r
}

} // verus!
