use hyperliquid_rust_sdk::nonce::NonceProvider;

#[test]
fn nonce_follows_the_clock_when_it_advances() {
    let mut n = NonceProvider::new();
    assert_eq!(n.next(1000), 1000);
    assert_eq!(n.next(1005), 1005);
    assert_eq!(n.last_issued(), 1005);
}

#[test]
fn nonces_within_one_millisecond_increase() {
    let mut n = NonceProvider::new();
    let a = n.next(2000);
    let b = n.next(2000);
    let c = n.next(2000);
    assert_eq!((a, b, c), (2000, 2001, 2002));
}

#[test]
fn nonce_never_goes_back_when_the_clock_does() {
    let mut n = NonceProvider::new();
    assert_eq!(n.next(5000), 5000);
    assert_eq!(n.next(4000), 5001);
    let mut last = 0;
    for t in [10u64, 10, 9, 11, 11, 30, 12] {
        let v = n.next(t);
        assert!(v > last);
        last = v;
    }
}

#[test]
fn nonce_saturates_at_the_largest_value() {
    let mut n = NonceProvider::new();
    assert_eq!(n.next(u64::MAX), u64::MAX);
    assert_eq!(n.next(3), u64::MAX);
}
