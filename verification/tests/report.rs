use noob_saturator::report::{curve_table, is_harmonic, Row, Section, Verdict};

#[test]
fn every_verdict_prints_its_mark() {
    assert_eq!(Verdict::Meets.mark(), "meets");
    assert_eq!(Verdict::Misses.mark(), "**misses**");
    assert_eq!(Verdict::NoFigure.mark(), "no figure");
}

#[test]
fn a_section_tallies_its_rows() {
    let rows = vec![
        Row::new("a", "1 dB", "0.5 dB".to_string(), "src", Verdict::Meets),
        Row::new("b", "1 dB", "2 dB".to_string(), "src", Verdict::Misses),
        Row::unanchored("c", "3".to_string(), "nothing published"),
        Row::new("d", "x", "y".to_string(), "src", Verdict::Meets).because("why"),
    ];
    let s = Section {
        title: "t",
        blurb: "b",
        rows,
    };
    assert_eq!(s.counts(), (2, 1, 1));
    let empty = Section {
        title: "t",
        blurb: "b",
        rows: Vec::new(),
    };
    assert_eq!(empty.counts(), (0, 0, 0));
}

#[test]
fn an_unanchored_row_says_so() {
    let r = Row::unanchored("q", "m".to_string(), "why");
    assert_eq!(r.published, "*(none published)*");
    assert_eq!(r.source, "—");
    assert_eq!(r.verdict, Verdict::NoFigure);
    assert_eq!(r.note, "why");
    let r = r.because("another reason");
    assert_eq!(r.note, "another reason");
    assert_eq!(r.quantity, "q");
    let n = Row::new("q", "p", "m".to_string(), "s", Verdict::Misses);
    assert_eq!(n.note, "");
    assert_eq!(n.measured, "m");
}

#[test]
fn bins_near_a_harmonic_below_nyquist_are_signal() {
    // Fundamental at bin 100, Nyquist at bin 450: harmonics at 100..400.
    assert!(is_harmonic(100, 100, 450));
    assert!(is_harmonic(98, 100, 450));
    assert!(is_harmonic(402, 100, 450));
    assert!(!is_harmonic(97, 100, 450));
    assert!(!is_harmonic(250, 100, 450));
    // The fifth harmonic is at Nyquist itself, so it is not signal.
    assert!(!is_harmonic(500, 100, 450));
    assert!(!is_harmonic(450, 100, 450));
    assert!(!is_harmonic(0, 100, 450));
    assert!(is_harmonic(usize::MAX, usize::MAX, usize::MAX) == false);
}

#[test]
fn the_curve_table_prints_every_curve_and_its_antiderivative() {
    let t = curve_table();
    for name in ["Warm", "Round", "Soft", "Clip", "Fold", "Gate"] {
        assert!(t.contains(&format!("| {name} |")), "{name} is missing");
    }
    assert!(t.contains("`ln cosh x`"));
    assert!(t.contains("`1 − cos x`"));
    assert!(t.starts_with("Every curve here is ours."));
    assert!(t.ends_with("one knee control and not two.\n"));
}
