use noob_saturator::render::{decimal, render_report, ReportConditions, PROBE_MISSING};
use noob_saturator::report::{curve_table, Row, Section, Verdict};

fn conditions(default_factor: usize) -> ReportConditions {
    ReportConditions {
        tone_hz: 15000,
        hot_drive: "20".to_string(),
        transform: 65536,
        preroll: 8192,
        block: 512,
        default_factor,
        generated: "2024-01-01".to_string(),
    }
}

fn sections() -> Vec<Section> {
    vec![
        Section {
            title: "Aliasing",
            blurb: "How much folds back.",
            rows: vec![
                Row::new("soft, 15 kHz", "-90 dB", "-95 dB".to_string(), "target", Verdict::Meets),
                Row::new("fold, +36 dB", "-90 dB", "-40 dB".to_string(), "target", Verdict::Misses)
                    .because("the end of the drive's travel"),
            ],
        },
        Section {
            title: "Latency",
            blurb: "What the host is told.",
            rows: vec![
                Row::new("16x", "120", "120".to_string(), "design", Verdict::Meets),
                Row::unanchored("kernel half-sample", "0.5".to_string(), "fractional"),
            ],
        },
        Section {
            title: "Empty",
            blurb: "Nothing measured yet.",
            rows: Vec::new(),
        },
    ]
}

#[test]
fn decimal_writes_every_digit_and_no_leading_zero() {
    assert_eq!(decimal(0), "0");
    assert_eq!(decimal(7), "7");
    assert_eq!(decimal(10), "10");
    assert_eq!(decimal(1234), "1234");
    assert_eq!(decimal(1_000_000), "1000000");
    assert_eq!(decimal(usize::MAX), usize::MAX.to_string());
}

#[test]
fn the_summary_tallies_each_section_and_sums_them() {
    let doc = render_report(&sections(), &conditions(3), "| table |", None);
    assert!(doc.contains("| Aliasing | 1 | 1 | 0 |\n"));
    assert!(doc.contains("| Latency | 1 | 0 | 1 |\n"));
    assert!(doc.contains("| Empty | 0 | 0 | 0 |\n"));
    assert!(doc.contains("| **all** | **2** | **1** | **1** |\n\n"));
}

#[test]
fn every_row_is_printed_with_its_verdict() {
    let doc = render_report(&sections(), &conditions(3), "| table |", None);
    assert!(doc.contains("| soft, 15 kHz | -90 dB | -95 dB | meets | target |\n"));
    assert!(doc.contains("| fold, +36 dB | -90 dB | -40 dB | **misses** | target |\n"));
    assert!(doc.contains("| 16x | 120 | 120 | meets | design |\n"));
    assert!(doc.contains(
        "| kernel half-sample | *(none published)* | 0.5 | no figure | — |\n"
    ));
}

#[test]
fn only_rows_with_notes_are_listed_under_notes() {
    let doc = render_report(&sections(), &conditions(3), "| table |", None);
    assert!(doc.contains("- **fold, +36 dB**: the end of the drive's travel\n"));
    assert!(doc.contains("- **kernel half-sample**: fractional\n"));
    assert!(!doc.contains("- **soft, 15 kHz**"));
    assert!(!doc.contains("- **16x**"));
    // Two sections have notes; the empty one has none.
    assert_eq!(doc.matches("Notes:\n\n").count(), 2);
    assert!(doc.contains("## Empty\n\nNothing measured yet.\n\n"));
}

#[test]
fn the_shipped_default_line_states_its_latency() {
    let doc = render_report(&sections(), &conditions(3), "| table |", None);
    assert!(doc.contains("| shipped default | 16x oversampling, 120 samples of latency |\n"));
    let doc = render_report(&sections(), &conditions(0), "| table |", None);
    assert!(doc.contains("| shipped default | 2x oversampling, 64 samples of latency |\n"));
    let doc = render_report(&sections(), &conditions(1), "| table |", None);
    assert!(doc.contains("| shipped default | 4x oversampling, 96 samples of latency |\n"));
    let doc = render_report(&sections(), &conditions(2), "| table |", None);
    assert!(doc.contains("| shipped default | 8x oversampling, 112 samples of latency |\n"));
}

#[test]
fn the_conditions_are_printed_as_given() {
    let doc = render_report(&sections(), &conditions(3), "| table |", None);
    assert!(doc.starts_with("# Noob Saturator: measured\n\n"));
    assert!(doc.contains("| test tone | 15000 Hz, full scale |\n"));
    assert!(doc.contains("| hot drive | +20 dB, an input gain of ten into the shape |\n"));
    assert!(doc.contains("| transform | 65536 points, rectangular, bin-locked |\n"));
    assert!(doc.contains("| discarded | 8192 samples of pre-roll |\n"));
    assert!(doc.contains("| block size | 512 samples |\n"));
    assert!(doc.contains("| generated | 2024-01-01 |\n"));
}

#[test]
fn the_report_carries_the_factor_table_the_curve_table_and_the_probe() {
    let doc = render_report(&sections(), &conditions(3), "| factor table |", None);
    assert!(doc.contains("| factor table |\n"));
    assert!(doc.contains(&curve_table()));
    assert!(doc.contains(PROBE_MISSING));
    let doc = render_report(&sections(), &conditions(3), "| factor table |", Some("probe says -97 dB"));
    assert!(doc.contains("## The out-of-tree probe\n\nprobe says -97 dB\n"));
    assert!(!doc.contains(PROBE_MISSING));
}

#[test]
fn sections_come_out_in_order() {
    let doc = render_report(&sections(), &conditions(3), "| table |", None);
    let a = doc.find("## Aliasing\n").unwrap();
    let l = doc.find("## Latency\n").unwrap();
    let e = doc.find("## Empty\n").unwrap();
    let f = doc.find("## Aliasing against the oversampling factor").unwrap();
    assert!(a < l && l < e && e < f);
}
