use rand_bind::{gen_int_range, next_int};

#[test]
fn gen_int_range_stays_in_bounds() {
    for _ in 0..200 {
        let v = gen_int_range(-5, 5).unwrap();
        assert!(-5 <= v && v < 5);
    }
    for _ in 0..200 {
        let v = gen_int_range(0, 1_000_000_000_000).unwrap();
        assert!(0 <= v && v < 1_000_000_000_000);
    }
}

#[test]
fn gen_int_range_width_one_is_exact() {
    for _ in 0..20 {
        assert_eq!(gen_int_range(41, 42).unwrap(), 41);
        assert_eq!(gen_int_range(-1, 0).unwrap(), -1);
    }
}

#[test]
fn gen_int_range_full_span() {
    let v = gen_int_range(i64::MIN, i64::MAX).unwrap();
    assert!(v < i64::MAX);
}

#[test]
fn gen_int_range_empty_fails() {
    for (low, high) in [(5i64, 5i64), (7, 3), (i64::MAX, i64::MIN), (0, 0)] {
        let r = gen_int_range(low, high);
        assert!(r.is_err());
        assert_eq!(r.unwrap_err(), "expected low < high");
    }
}

#[test]
fn next_int_draws() {
    let mut draws = Vec::new();
    for _ in 0..100 {
        draws.push(next_int());
    }
    assert_eq!(draws.len(), 100);
}
