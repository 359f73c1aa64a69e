use parametric::{locate_piece, Concat, Repeat, T};

fn parts(t: &T) -> (u64, u64) {
    (t.numerator(), t.denominator())
}

fn value(t: &T) -> (u64, u64) {
    let n = t.numerator();
    let d = t.denominator();
    let mut g = d;
    let mut r = n;
    while r != 0 {
        let x = g % r;
        g = r;
        r = x;
    }
    (n / g, d / g)
}

#[test]
fn concat_start_goes_to_first_piece() {
    let c = Concat { functions: vec!['a', 'b'] };
    let (i, local) = c.locate(T::start());
    assert_eq!(i, 0);
    assert!(local.is_start());
    assert_eq!(c.functions[i], 'a');
}

#[test]
fn concat_end_goes_to_last_piece() {
    let c = Concat { functions: vec!['a', 'b'] };
    let (i, local) = c.locate(T::end());
    assert_eq!(i, 1);
    assert!(local.is_end());
    assert_eq!(c.functions[i], 'b');
}

#[test]
fn concat_joint_starts_the_second_piece() {
    let c = Concat { functions: vec!['a', 'b'] };
    let (i, local) = c.locate(T::new(1, 2));
    assert_eq!(i, 1);
    assert!(local.is_start());
}

#[test]
fn concat_interior_is_rescaled() {
    let (i, local) = locate_piece(2, T::new(1, 4));
    assert_eq!(i, 0);
    assert_eq!(value(&local), (1, 2));
    let (i, local) = locate_piece(3, T::new(5, 6));
    assert_eq!(i, 2);
    assert_eq!(value(&local), (1, 2));
    assert_eq!(parts(&local), (3, 6));
}

#[test]
fn single_piece_hands_on_the_parameter() {
    let (i, local) = locate_piece(1, T::new(2, 7));
    assert_eq!(i, 0);
    assert_eq!(parts(&local), (2, 7));
}

#[test]
fn repeat_replays_the_curve() {
    let r = Repeat { function: 'f', n: 2 };
    let (i, local) = r.locate(T::new(1, 2));
    assert_eq!(i, 1);
    assert!(local.is_start());
    let (i, local) = r.locate(T::new(3, 4));
    assert_eq!(i, 1);
    assert_eq!(value(&local), (1, 2));
    let (i, local) = r.locate(T::end());
    assert_eq!(i, 1);
    assert!(local.is_end());
}

#[test]
fn repeat_of_concat_nests() {
    let inner = Concat { functions: vec!['a', 'b'] };
    let outer = Repeat { function: inner, n: 2 };
    let (k, local) = outer.locate(T::new(1, 8));
    assert_eq!(k, 0);
    let (i, inner_local) = outer.function.locate(local);
    assert_eq!(i, 0);
    assert_eq!(value(&inner_local), (1, 2));
}

#[test]
fn repeat_law_on_values() {
    // (k + x) / n with n = 3, k = 1, x = 2/5 gives repetition 1 at 2/5.
    let (i, local) = locate_piece(3, T::new(7, 15));
    assert_eq!(i, 1);
    assert_eq!(value(&local), (2, 5));
}
