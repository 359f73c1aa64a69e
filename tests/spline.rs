use parametric::{spline_windows, BezierFourthSpline, BezierSecondSpline, BezierThirdSpline, T};

#[test]
fn second_order_windows_share_ends() {
    let s = BezierSecondSpline::new(vec![0, 1, 2, 3, 4]);
    assert_eq!(s.pieces(), vec![vec![0, 1, 2], vec![2, 3, 4]]);
}

#[test]
fn trailing_points_are_dropped() {
    assert_eq!(spline_windows(&vec![0, 1, 2, 3], 2), vec![vec![0, 1, 2]]);
    assert_eq!(spline_windows(&vec![0, 1, 2, 3, 4, 5, 6, 7], 3), vec![vec![0, 1, 2, 3], vec![3, 4, 5, 6]]);
    assert!(spline_windows(&vec![0, 1], 2).is_empty());
    assert!(spline_windows(&Vec::<i32>::new(), 4).is_empty());
}

#[test]
fn third_order_pieces() {
    let s = BezierThirdSpline::new(vec![0, 1, 2, 3, 4, 5, 6]);
    assert_eq!(s.pieces(), vec![vec![0, 1, 2, 3], vec![3, 4, 5, 6]]);
    let (w, local) = s.piece(T::new(3, 4));
    assert_eq!(w, vec![3, 4, 5, 6]);
    assert!(local == T::new(1, 2));
}

#[test]
fn fourth_order_pieces() {
    let s = BezierFourthSpline::new(vec![0, 1, 2, 3, 4, 5, 6, 7, 8]);
    assert_eq!(s.pieces(), vec![vec![0, 1, 2, 3, 4], vec![4, 5, 6, 7, 8]]);
    let (w, local) = s.piece(T::start());
    assert_eq!(w, vec![0, 1, 2, 3, 4]);
    assert!(local.is_start());
    let (w, local) = s.piece(T::end());
    assert_eq!(w, vec![4, 5, 6, 7, 8]);
    assert!(local.is_end());
}

#[test]
fn second_order_piece_at_joint() {
    let s = BezierSecondSpline::new(vec![0, 1, 2, 3, 4]);
    let (w, local) = s.piece(T::new(1, 2));
    assert_eq!(w, vec![2, 3, 4]);
    assert!(local.is_start());
    let (w, local) = s.piece(T::new(1, 4));
    assert_eq!(w, vec![0, 1, 2]);
    assert!(local == T::new(1, 2));
}
