use s3_transfer::ConcurrencyGate;

#[test]
fn gate_grants_up_to_budget_and_no_more() {
    let mut g = ConcurrencyGate::new(2);
    assert!(g.try_acquire());
    assert!(g.try_acquire());
    assert!(!g.try_acquire());
    assert_eq!(g.in_use, 2);
    g.release();
    assert!(g.try_acquire());
    assert!(!g.try_acquire());
}

#[test]
fn gate_never_exceeds_budget_under_mixed_traffic() {
    // A deterministic but irregular acquire/release pattern; the permit
    // count stays within the budget at every step.
    let budget = 3;
    let mut g = ConcurrencyGate::new(budget);
    let mut held: usize = 0;
    let mut x: u64 = 0x2545_f491_4f6c_dd1d;
    for _ in 0..1000 {
        // xorshift for an arbitrary-looking schedule
        x ^= x << 13;
        x ^= x >> 7;
        x ^= x << 17;
        if x % 3 == 0 && held > 0 {
            g.release();
            held -= 1;
        } else {
            if g.try_acquire() {
                held += 1;
            }
        }
        assert!(g.in_use <= g.budget);
        assert_eq!(g.in_use, held);
    }
}

#[test]
fn gate_available_counts_free_permits() {
    let mut g = ConcurrencyGate::new(4);
    assert_eq!(g.available(), 4);
    g.try_acquire();
    g.try_acquire();
    assert_eq!(g.available(), 2);
    g.release();
    assert_eq!(g.available(), 3);
}
