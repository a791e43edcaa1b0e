use rat_trig::fib;
use rat_trig::fibonacci::MAX_FIB_INDEX;

#[test]
fn lib_test_fib() {
    assert_eq!(fib(1), 1);
    assert_eq!(fib(2), 1);
    assert_eq!(fib(3), 2);
    assert_eq!(fib(4), 3);
    assert_eq!(fib(5), 5);
    assert_eq!(fib(6), 8);
    assert_eq!(fib(7), 13);
    assert_eq!(fib(8), 21);
    assert_eq!(fib(9), 34);
    assert_eq!(fib(10), 55);
}

#[test]
fn fibonacci_test_fib() {
    assert_eq!(fib(1), 1);
    assert_eq!(fib(2), 1);
    assert_eq!(fib(3), 2);
    assert_eq!(fib(4), 3);
    assert_eq!(fib(5), 5);
    assert_eq!(fib(6), 8);
    assert_eq!(fib(7), 13);
    assert_eq!(fib(8), 21);
    assert_eq!(fib(9), 34);
    assert_eq!(fib(10), 55);
}

#[test]
fn fib_follows_the_recurrence() {
    let mut n: u64 = 3;
    while n <= MAX_FIB_INDEX {
        assert_eq!(fib(n), fib(n - 1) + fib(n - 2));
        n += 1;
    }
}

#[test]
fn fib_never_decreases() {
    let mut n: u64 = 1;
    while n < MAX_FIB_INDEX {
        assert!(fib(n) <= fib(n + 1));
        n += 1;
    }
}

#[test]
fn fib_of_the_greatest_index() {
    assert_eq!(MAX_FIB_INDEX, 93);
    assert_eq!(fib(92), 7540113804746346429);
    assert_eq!(fib(93), 12200160415121876738);
    // The next one would not fit.
    assert_eq!(fib(93).checked_add(fib(92)), None);
}
