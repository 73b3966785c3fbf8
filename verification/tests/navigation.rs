use drawboy::nav::{advance_index, clamp_index, effective_last, retreat_index};

#[test]
fn advance_steps_forward() {
    assert_eq!(advance_index(1, 4), 2);
    assert_eq!(advance_index(2, 4), 3);
    assert_eq!(advance_index(3, 4), 4);
}

#[test]
fn advance_from_last_wraps_to_one() {
    assert_eq!(advance_index(4, 4), 1);
    assert_eq!(advance_index(1, 1), 1);
    assert_eq!(advance_index(100, 100), 1);
}

#[test]
fn retreat_from_one_wraps_to_last() {
    assert_eq!(retreat_index(1, 4), 4);
    assert_eq!(retreat_index(1, 1), 1);
    assert_eq!(retreat_index(1, 77), 77);
}

#[test]
fn retreat_steps_backward() {
    assert_eq!(retreat_index(4, 4), 3);
    assert_eq!(retreat_index(2, 4), 1);
}

#[test]
fn full_cycle_returns_to_start() {
    for last in 1..=7u32 {
        for start in 1..=last {
            let mut p = start;
            for _ in 0..last {
                p = advance_index(p, last);
            }
            assert_eq!(p, start);
        }
    }
}

#[test]
fn retreat_inverts_advance_away_from_wrap() {
    let last = 9;
    for p in 1..last {
        assert_eq!(retreat_index(advance_index(p, last), last), p);
    }
    // At the wrap boundary the pair is not an inverse: it lands back on the
    // far end only after going through 1.
    assert_eq!(retreat_index(advance_index(last, last), last), last);
}

#[test]
fn stale_position_above_last_wraps_on_advance() {
    // After a pattern reload shrank the bound, an advance falls back to 1.
    assert_eq!(advance_index(10, 4), 1);
}

#[test]
fn clamp_forces_into_range() {
    assert_eq!(clamp_index(0, 4), 1);
    assert_eq!(clamp_index(1, 4), 1);
    assert_eq!(clamp_index(4, 4), 4);
    assert_eq!(clamp_index(5, 4), 4);
}

#[test]
fn zero_last_index_is_treated_as_one() {
    assert_eq!(effective_last(0), 1);
    assert_eq!(effective_last(1), 1);
    assert_eq!(effective_last(42), 42);
    assert_eq!(advance_index(1, effective_last(0)), 1);
    assert_eq!(retreat_index(1, effective_last(0)), 1);
}
