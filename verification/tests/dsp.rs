use noob_saturator::dsp::adaa;
use noob_saturator::dsp::curve::{CURVE_NAMES, Curve};
use noob_saturator::dsp::oversample::{
    self, depth_for_index, latency_for_depth, DryDelay, Line, CENTRE_READ, HALF, MAX_DEPTH,
    MAX_FACTOR, MAX_LATENCY, TAPS,
};
use noob_saturator::dsp::publish::PublishSchedule;
use noob_saturator::dsp::source::Xorshift32;
use noob_saturator::dsp::{
    param_index_from, stream_ix, ALIAS_LEN, LATENCY_LEN, METER_LEN, PARAM_IDS, REQUIRED_PARAMS,
    SPECTRUM_BINS, STREAM_IDS,
};

// ---------------------------------------------------------------------------
// The curve menu
// ---------------------------------------------------------------------------

#[test]
fn the_curve_names_match_the_menu() {
    assert_eq!(CURVE_NAMES.len(), Curve::ALL.len());
    for (i, c) in Curve::ALL.iter().enumerate() {
        assert_eq!(c.index(), i);
        assert_eq!(Curve::from_index(i), *c);
        assert_eq!(c.name(), CURVE_NAMES[i]);
    }
}

#[test]
fn a_value_past_the_menu_selects_the_default_curve() {
    assert_eq!(Curve::from_index(6), Curve::Soft);
    assert_eq!(Curve::from_index(usize::MAX), Curve::Soft);
    assert_eq!(Curve::default(), Curve::Soft);
    assert_eq!(Curve::from_index(Curve::default().index()), Curve::default());
}

#[test]
fn each_curve_has_its_own_name() {
    assert_eq!(Curve::Warm.name(), "Warm");
    assert_eq!(Curve::Gate.name(), "Gate");
    assert_eq!(Curve::Fold.index(), 4);
}

// ---------------------------------------------------------------------------
// The antialiasing threshold
// ---------------------------------------------------------------------------

/// The rule is that the threshold is at least the square root of the
/// antiderivative's relative error, and that it stays at or below 0.01.
#[test]
fn the_threshold_and_the_antiderivative_precision_are_paired() {
    let min_step = 1.0 / adaa::MIN_STEP_INVERSE as f64;
    let f0_relative_error = 1.0 / adaa::F0_RELATIVE_ERROR_INVERSE as f64;
    assert!(
        min_step * min_step >= f0_relative_error,
        "a threshold of {:e} pairs with an antiderivative good to {:e}, but the rule needs the \
         threshold at or above {:e}",
        min_step,
        f0_relative_error,
        f0_relative_error.sqrt()
    );
    assert!(min_step <= 0.01);
    assert_eq!(min_step, 0.01);
    assert_eq!(f0_relative_error, 1e-15);
}

// ---------------------------------------------------------------------------
// The cascade
// ---------------------------------------------------------------------------

#[test]
fn every_factor_has_an_integer_latency() {
    assert_eq!(oversample::latency_for_depth(1), 64);
    assert_eq!(oversample::latency_for_depth(2), 96);
    assert_eq!(oversample::latency_for_depth(3), 112);
    assert_eq!(oversample::latency_for_depth(4), 120);
    assert_eq!(
        (TAPS - 1) % 16,
        0,
        "the tap count no longer divides for 16x"
    );
}

#[test]
fn depths_and_latencies_are_held_to_the_cascade() {
    assert_eq!(depth_for_index(0), 1);
    assert_eq!(depth_for_index(3), 4);
    assert_eq!(depth_for_index(4), MAX_DEPTH);
    assert_eq!(depth_for_index(usize::MAX), MAX_DEPTH);
    assert_eq!(latency_for_depth(0), 64);
    assert_eq!(latency_for_depth(9), MAX_LATENCY);
    assert_eq!(MAX_LATENCY, 120);
    assert_eq!(MAX_FACTOR, 1 << MAX_DEPTH);
    assert_eq!(HALF, (TAPS - 1) / 2);
    assert_eq!(CENTRE_READ, HALF - 1 - HALF / 2);
    let lat: Vec<usize> = (0..4).map(|i| latency_for_depth(depth_for_index(i))).collect();
    assert_eq!(lat, vec![64, 96, 112, 120]);
}

#[test]
fn a_branch_history_is_the_last_half_samples_oldest_first() {
    let mut line = Line::new(0i64);
    assert_eq!(line.window().len(), HALF);
    assert!(line.window().iter().all(|v| *v == 0));
    for i in 1..=(3 * HALF as i64 + 5) {
        let w: Vec<i64> = line.push(i).to_vec();
        assert_eq!(w.len(), HALF);
        assert_eq!(w[HALF - 1], i, "the window ends on the sample just pushed");
        for (j, v) in w.iter().enumerate() {
            let want = i - (HALF as i64 - 1 - j as i64);
            assert_eq!(*v, if want > 0 { want } else { 0 }, "at {i}, slot {j}");
        }
        assert_eq!(line.window(), &w[..]);
    }
    line.reset();
    assert!(line.window().iter().all(|v| *v == 0));
}

#[test]
fn the_dry_delay_delays_by_exactly_what_it_says() {
    for len in [0usize, 1, 5, 64, 96, 120] {
        let mut d = DryDelay::new(len, 0.0f32);
        let mut out = Vec::new();
        for i in 0..400 {
            out.push(d.process(i as f32));
        }
        for i in len..400 {
            assert_eq!(out[i], (i - len) as f32, "len {len} at {i}");
        }
    }
}

#[test]
fn the_dry_delay_puts_out_silence_until_its_length_has_passed() {
    let mut d = DryDelay::new(3, -1i32);
    let got: Vec<i32> = (10..16).map(|x| d.process(x)).collect();
    assert_eq!(got, vec![-1, -1, -1, 10, 11, 12]);
}

#[test]
fn the_dry_delay_is_held_to_the_longest_round_trip() {
    let d = DryDelay::new(1000, 0u8);
    assert_eq!(d.len(), MAX_LATENCY);
    assert!(!d.is_empty());
    assert!(DryDelay::new(0, 0u8).is_empty());
}

#[test]
fn changing_the_dry_delay_clears_it_and_keeping_it_does_not() {
    let mut d = DryDelay::new(2, 0u32);
    d.process(7);
    d.process(8);
    d.set_len(2);
    assert_eq!(d.process(9), 7, "the same length keeps what is held");
    d.set_len(4);
    assert_eq!(d.len(), 4);
    let got: Vec<u32> = (1..7).map(|x| d.process(x)).collect();
    assert_eq!(got, vec![0, 0, 0, 0, 1, 2]);
    d.reset();
    assert_eq!(d.process(50), 0);
}

// ---------------------------------------------------------------------------
// Streams and parameters
// ---------------------------------------------------------------------------

#[test]
fn the_stream_layout_is_what_the_page_expects() {
    let ix = stream_ix();
    assert_eq!(ix.meter, 0);
    assert_eq!(ix.spec_out, 6);
    for (i, id) in [
        "meter", "alias", "transfer", "color", "latency", "spec_in", "spec_out",
    ]
    .iter()
    .enumerate()
    {
        assert_eq!(STREAM_IDS[i], *id, "stream {i} moved");
    }
    assert_eq!(STREAM_IDS[ix.latency], "latency");
    assert_eq!(METER_LEN, 4);
    assert_eq!(ALIAS_LEN, 4);
    assert_eq!(LATENCY_LEN, 5);
    assert_eq!(SPECTRUM_BINS, noob_saturator::dsp::alias::WINDOW / 2);
}

#[test]
fn parameter_indices_resolve_from_the_lookups() {
    let found: Vec<Option<usize>> = (0..PARAM_IDS.len()).map(Some).collect();
    let ix = param_index_from(&found).expect("every id found");
    assert_eq!(ix.drive, 0);
    assert_eq!(ix.oversample, 14);
    assert_eq!(ix.src_freq, Some(17));
    assert_eq!(PARAM_IDS[ix.clip_knee], "clip_knee");

    // The plug-in's mirror has no demo source.
    let mut mirror = found.clone();
    for f in mirror.iter_mut().skip(REQUIRED_PARAMS) {
        *f = None;
    }
    let ix = param_index_from(&mirror).expect("the mirror resolves");
    assert_eq!(ix.src_kind, None);
    assert_eq!(ix.color_depth, 10);

    // A bridge without one of the device's own parameters does not.
    let mut broken = found.clone();
    broken[PARAM_IDS.iter().position(|id| *id == "mix").unwrap()] = None;
    assert!(param_index_from(&broken).is_none());
    assert!(PARAM_IDS.iter().all(|id| *id != "quality" && *id != "hi_quality"));
}

// ---------------------------------------------------------------------------
// Publishing
// ---------------------------------------------------------------------------

#[test]
fn the_alignment_frame_goes_out_once_per_change() {
    let mut s = PublishSchedule::new();
    assert!(s.publish().latency);
    assert!(!s.publish().latency);
    s.settings(true, false);
    assert!(!s.publish().latency, "a knob that is not the factor leaves it alone");
    s.settings(true, true);
    assert!(s.publish().latency);
    assert!(!s.publish().latency);
    s.invalidate();
    assert!(s.publish().latency);
}

#[test]
fn due_curves_go_out_on_the_fourth_block_and_only_then() {
    let mut s = PublishSchedule::new();
    let plans: Vec<bool> = (0..8).map(|_| s.publish().curves).collect();
    assert_eq!(plans, vec![false, false, false, true, false, false, false, false]);
    s.settings(true, false);
    let plans: Vec<bool> = (0..4).map(|_| s.publish().curves).collect();
    assert_eq!(plans, vec![false, false, false, true]);
    s.settings(false, true);
    assert!((0..8).all(|_| !s.publish().curves), "an unchanged snapshot redraws nothing");
}

#[test]
fn the_noise_source_never_reaches_zero() {
    let mut g = Xorshift32::new(0x9E37_79B9);
    assert_eq!(g.next(), 0x510c_4619);
    assert_eq!(g.next(), 0xe02e_553e);
    assert_eq!(g.next(), 0x7bb9_8f3a);
    let mut z = Xorshift32::new(0);
    for _ in 0..10_000 {
        assert_ne!(z.next(), 0);
    }
}
