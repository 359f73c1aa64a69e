use parametric::{linspace_params, random_param, random_params, T};

#[test]
fn linspace_has_n_plus_one_points() {
    let ts = linspace_params(4);
    assert_eq!(ts.len(), 5);
    assert!(ts[0] == T::start());
    assert!(ts[4] == T::end());
    assert!(ts[2] == T::new(1, 2));
    assert_eq!((ts[1].numerator(), ts[1].denominator()), (1, 4));
}

#[test]
fn linspace_increases() {
    let ts = linspace_params(7);
    for w in ts.windows(2) {
        let a = (w[0].numerator() as u128) * (w[1].denominator() as u128);
        let b = (w[1].numerator() as u128) * (w[0].denominator() as u128);
        assert!(a < b);
    }
}

#[test]
fn linspace_of_one_is_the_two_ends() {
    let ts = linspace_params(1);
    assert_eq!(ts.len(), 2);
    assert!(ts[0].is_start());
    assert!(ts[1].is_end());
}

#[test]
fn random_params_count_and_range() {
    let _p = random_param();
    let ps = random_params(100);
    assert_eq!(ps.len(), 100);
    for p in ps.iter() {
        assert!(!p.is_end());
        assert_eq!(p.denominator(), 1u64 << 32);
    }
}
