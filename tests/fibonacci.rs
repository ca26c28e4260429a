use rust_basics::{compute, FibError};

#[test]
fn seeds() {
    assert_eq!(compute(0), Ok(0));
    assert_eq!(compute(1), Ok(1));
}

#[test]
fn small_terms() {
    assert_eq!(compute(2), Ok(1));
    assert_eq!(compute(10), Ok(55));
}

#[test]
fn fifteenth_term() {
    assert_eq!(compute(15), Ok(610));
}

#[test]
fn recurrence_on_first_terms() {
    for n in 2..=93u64 {
        let c = compute(n).unwrap();
        let a = compute(n - 1).unwrap();
        let b = compute(n - 2).unwrap();
        assert_eq!(c, a + b);
    }
}

#[test]
fn terms_never_decrease() {
    for n in 1..=93u64 {
        assert!(compute(n).unwrap() >= compute(n - 1).unwrap());
    }
}

#[test]
fn repeated_calls_agree() {
    for n in [0u64, 1, 2, 15, 50, 93, 94, 1000] {
        assert_eq!(compute(n), compute(n));
    }
}

#[test]
fn largest_term_that_fits() {
    assert_eq!(compute(93), Ok(12200160415121876738));
}

#[test]
fn overflow_past_the_largest_term() {
    assert_eq!(compute(94), Err(FibError::Overflow));
    assert_eq!(compute(u64::MAX), Err(FibError::Overflow));
}
