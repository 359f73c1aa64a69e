//! Points on parametric curves: the exact parameter model and the
//! reparameterisation rules that curve composition rests on.
//!
//! A curve is sampled at a parameter `T` in `[0, 1]`. Concatenation and
//! repetition hand a parameter on to one of their pieces, splines cut a run
//! of points into Bezier pieces, and sampling picks evenly spaced or random
//! parameters. All of it is exact: parameters are fractions.

pub mod concat;
pub mod param;
pub mod sampling;
pub mod spline;

pub use crate::concat::{locate_piece, Concat, Repeat};
pub use crate::param::T;
pub use crate::sampling::{linspace_params, random_param, random_params};
pub use crate::spline::{
    spline_piece, spline_windows, BezierFourthSpline, BezierSecondSpline, BezierThirdSpline,
};
