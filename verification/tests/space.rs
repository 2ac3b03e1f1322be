use backend::services::space::free_space_running_out;

/// The rule as the floating-point expression computes it.
fn by_doubles(total: u64, free: u64) -> bool {
    (1. - (total - free) as f64 / total as f64) < 0.1
}

fn check(total: u64, free: u64) {
    assert_eq!(
        free_space_running_out(total, free),
        by_doubles(total, free),
        "total {total}, free {free}"
    );
}

#[test]
fn free_space_boundaries() {
    assert!(free_space_running_out(10, 1));
    assert!(!free_space_running_out(10, 2));
    assert!(!free_space_running_out(0, 0));
    assert!(!free_space_running_out(100, 100));
    assert!(free_space_running_out(100, 0));
    for total in 1..2000u64 {
        for free in [0, total / 10, total / 10 + 1, (total / 10).saturating_sub(1), total / 2, total] {
            if free <= total {
                check(total, free);
            }
        }
    }
}

#[test]
fn free_space_matches_doubles_on_large_values() {
    let mut state: u64 = 0x9E37_79B9_7F4A_7C15;
    let mut next = move || {
        state ^= state << 13;
        state ^= state >> 7;
        state ^= state << 17;
        state
    };
    for _ in 0..200_000 {
        let total = next() >> (next() % 64);
        if total == 0 {
            check(0, 0);
            continue;
        }
        let free = match next() % 4 {
            0 => total / 10,
            1 => total / 10 + (next() % 4),
            2 => next() % (total / 5 + 1),
            _ => next() % total,
        };
        if free <= total {
            check(total, free);
        }
    }
    for shift in 50..64u32 {
        let total = 1u64 << shift;
        for delta in 0..64u64 {
            check(total + delta, (total + delta) / 10);
            check(total - delta, (total - delta) / 10 + 1);
            check(u64::MAX - delta, (u64::MAX - delta) / 10);
        }
    }
}
