use drawboy::ewma::{Ewma, DEFAULT_ALPHA_PM};

#[test]
fn first_sample_is_taken_verbatim() {
    let mut e = Ewma::new(DEFAULT_ALPHA_PM);
    assert_eq!(e.sample_count(), 0);
    e.record(1234);
    assert_eq!(e.value(), 1234);
    assert_eq!(e.sample_count(), 1);
}

#[test]
fn first_sample_is_verbatim_for_any_alpha() {
    for alpha in [0, 1, 100, 500, 999, 1000] {
        let mut e = Ewma::new(alpha);
        e.record(777);
        assert_eq!(e.value(), 777);
    }
}

#[test]
fn early_samples_use_ramped_weight() {
    // alpha = 100 parts per thousand. Second sample: weight
    // 100 + 900 / 2 = 550, so (550 * 2000 + 450 * 1000) / 1000 = 1550.
    let mut e = Ewma::new(100);
    e.record(1000);
    e.record(2000);
    assert_eq!(e.value(), 1550);
    // Third sample: weight 100 + 900 / 3 = 400, so
    // (400 * 1000 + 600 * 1550) / 1000 = 1330.
    e.record(1000);
    assert_eq!(e.value(), 1330);
}

#[test]
fn steady_state_weight_after_ramp() {
    // Twenty zero samples leave the estimate at zero and the count at 20;
    // the next sample is then weighted by the bare alpha: 100 parts of 1000.
    let mut e = Ewma::new(100);
    for _ in 0..20 {
        e.record(0);
    }
    assert_eq!(e.value(), 0);
    assert_eq!(e.sample_count(), 20);
    e.record(1000);
    assert_eq!(e.value(), 100);
    assert_eq!(e.sample_count(), 21);
}

#[test]
fn constant_input_is_a_fixed_point() {
    let mut e = Ewma::new(100);
    for _ in 0..30 {
        e.record(500);
    }
    assert_eq!(e.value(), 500);
}

#[test]
fn reset_discards_history() {
    let mut e = Ewma::new(100);
    e.record(1000);
    e.record(2000);
    e.reset();
    assert_eq!(e.sample_count(), 0);
    assert_eq!(e.value(), 0);
}

#[test]
fn record_after_reset_behaves_as_fresh_first_sample() {
    let mut e = Ewma::new(100);
    e.record(9999);
    e.record(1);
    e.reset();
    e.record(4321);
    assert_eq!(e.value(), 4321);
    assert_eq!(e.sample_count(), 1);
}
