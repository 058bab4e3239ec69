use noob_saturator::dsp::oversample::{latency_for_depth, Alignment, DryDelay, MAX_DEPTH};

#[test]
fn an_empty_dry_delay_passes_samples_straight_through() {
    let mut d: DryDelay<f32> = DryDelay::default();
    assert_eq!(d.len(), 0);
    assert!(d.is_empty());
    assert_eq!(d.process(0.25), 0.25);
    assert_eq!(d.process(-1.0), -1.0);
}

#[test]
fn the_first_snapshot_is_reported_and_sets_the_dry_delay() {
    let mut a: Alignment<f32> = Alignment::new(MAX_DEPTH, 0.0);
    let r = a.configure(3);
    assert!(r.first);
    assert!(!r.depth_changed);
    assert_eq!(a.depth(), 4);
    assert_eq!(a.factor(), 16);
    assert_eq!(a.latency(), 120);
    assert_eq!(a.dry_lengths(), (120, 120));
}

#[test]
fn the_dry_delay_follows_every_factor_to_the_reported_latency() {
    let mut a: Alignment<f32> = Alignment::new(MAX_DEPTH, 0.0);
    a.configure(3);
    for (index, latency) in [(0usize, 64usize), (1, 96), (2, 112), (3, 120), (9, 120)] {
        let r = a.configure(index);
        assert!(!r.first);
        assert_eq!(a.latency(), latency);
        assert_eq!(a.dry_lengths(), (latency, latency));
        assert_eq!(a.latency(), latency_for_depth(a.depth()));
    }
}

#[test]
fn a_depth_change_is_reported_and_an_unchanged_one_is_not() {
    let mut a: Alignment<f32> = Alignment::new(MAX_DEPTH, 0.0);
    a.configure(3);
    let r = a.configure(3);
    assert!(!r.first && !r.depth_changed);
    let r = a.configure(1);
    assert!(r.depth_changed);
    assert_eq!(a.depth(), 2);
    let r = a.configure(1);
    assert!(!r.depth_changed);
}

#[test]
fn the_dry_path_is_delayed_by_exactly_the_latency() {
    let mut a: Alignment<f32> = Alignment::new(MAX_DEPTH, 0.0);
    a.configure(0);
    let n = a.latency();
    let mut out_l = Vec::new();
    let mut out_r = Vec::new();
    for i in 0..(n + 10) {
        out_l.push(a.process(0, (i + 1) as f32));
        out_r.push(a.process(1, -((i + 1) as f32)));
    }
    for i in 0..n {
        assert_eq!(out_l[i], 0.0);
        assert_eq!(out_r[i], 0.0);
    }
    for i in n..(n + 10) {
        assert_eq!(out_l[i], (i - n + 1) as f32);
        assert_eq!(out_r[i], -((i - n + 1) as f32));
    }
}

#[test]
fn keeping_the_factor_keeps_what_the_dry_path_holds() {
    let mut a: Alignment<f32> = Alignment::new(MAX_DEPTH, 0.0);
    a.configure(0);
    for i in 0..10 {
        a.process(0, (i + 1) as f32);
    }
    a.configure(0);
    let n = a.latency();
    for _ in 0..(n - 10) {
        assert_eq!(a.process(0, 0.0), 0.0);
    }
    assert_eq!(a.process(0, 0.0), 1.0);
    // Moving the factor clears it.
    a.configure(1);
    for _ in 0..a.latency() {
        assert_eq!(a.process(0, 0.0), 0.0);
    }
    a.reset();
    assert_eq!(a.dry_lengths(), (96, 96));
}
