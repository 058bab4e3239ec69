//! The benchmark's report, `docs/BENCHMARK.md`: its conditions, its summary
//! of every section's tallies, every section with every row and its verdict,
//! the notes, the factor table, the curve table and the probe's account.
//!
//! The measurements are floating point and are made elsewhere; by the time
//! they reach the report every figure is already text in a [`Row`], so the
//! report itself is text and counting, and it is built here. Integers are
//! printed by [`decimal`].

use crate::dsp::oversample::{
    clamp_depth, depth_for_index, latency_for_depth, round_trip, FACTOR_NAMES,
};
use crate::report::{
    count_verdict, curve_table, joined, lemma_tallies_cover_every_row, verdict_mark, Row, Section,
    Verdict, CURVE_TABLE_PARTS,
};
use vstd::prelude::*;

verus! {

// ---------------------------------------------------------------------------
// Decimal numbers
// ---------------------------------------------------------------------------

/// The ten digits, in order.
pub const DIGITS: [&'static str; 10] = ["0", "1", "2", "3", "4", "5", "6", "7", "8", "9"];

/// `n` written in decimal, most significant digit first, with no leading
/// zeros.
pub open spec fn decimal_digits(n: nat) -> Seq<char>
    decreases n,
{
    if n < 10 {
        DIGITS@[n as int]@
    } else {
        decimal_digits(n / 10) + DIGITS@[(n % 10) as int]@
    }
}

/// The number a string of decimal digits stands for, most significant first.
pub open spec fn digits_value(s: Seq<char>) -> int
    decreases s.len(),
{
    if s.len() == 0 {
        0
    } else {
        digits_value(s.drop_last()) * 10 + (s.last() as int - '0' as int)
    }
}

proof fn lemma_digit_strings()
    ensures
        forall|d: int|
            0 <= d < 10 ==> (#[trigger] DIGITS@[d])@.len() == 1 && DIGITS@[d]@[0] as int == '0' as int
                + d,
{
    reveal_strlit("0");
    reveal_strlit("1");
    reveal_strlit("2");
    reveal_strlit("3");
    reveal_strlit("4");
    reveal_strlit("5");
    reveal_strlit("6");
    reveal_strlit("7");
    reveal_strlit("8");
    reveal_strlit("9");
}

/// **A number is printed as its decimal digits and reads back as itself**:
/// at least one digit, every character a digit, no leading zero, and the
/// digits' value is `n`.
pub proof fn lemma_decimal_reads_back(n: nat)
    ensures
        decimal_digits(n).len() >= 1,
        forall|i: int| 0 <= i < decimal_digits(n).len() ==> '0' <= #[trigger] decimal_digits(n)[i] <= '9',
        decimal_digits(n).len() > 1 ==> decimal_digits(n)[0] != '0',
        digits_value(decimal_digits(n)) == n,
    decreases n,
{
    lemma_digit_strings();
    let s = decimal_digits(n);
    if n < 10 {
        assert(DIGITS@[n as int]@.len() == 1);
        assert(s.drop_last() =~= Seq::<char>::empty());
        assert(digits_value(s.drop_last()) == 0);
        assert(s.last() as int == '0' as int + n);
    } else {
        lemma_decimal_reads_back(n / 10);
        let p = decimal_digits(n / 10);
        let d = (n % 10) as int;
        let q = DIGITS@[d]@;
        assert(q.len() == 1 && q[0] as int == '0' as int + d);
        assert(s == p + q);
        assert(s.drop_last() =~= p);
        assert(s.last() == q[0]);
        assert(digits_value(s) == digits_value(p) * 10 + (q[0] as int - '0' as int));
        assert(s[0] == p[0]);
        assert forall|i: int| 0 <= i < s.len() implies '0' <= #[trigger] s[i] <= '9' by {
            if i < p.len() {
                assert(s[i] == p[i]);
            } else {
                assert(s[i] == q[0]);
            }
        }
        if p.len() == 1 {
            assert(p.drop_last() =~= Seq::<char>::empty());
            assert(digits_value(p.drop_last()) == 0);
            assert(digits_value(p) == p[0] as int - '0' as int);
        }
    }
}

fn push_decimal(out: &mut String, n: usize)
    ensures
        final(out)@ == old(out)@ + decimal_digits(n as nat),
    decreases n,
{
    let ghost before = out@;
    if n >= 10 {
        push_decimal(out, n / 10);
    }
    out.append(DIGITS[n % 10]);
    proof {
        if n >= 10 {
            assert(out@ =~= before + decimal_digits(n as nat));
        } else {
            assert(out@ =~= before + decimal_digits(n as nat));
        }
    }
}

/// `n` in decimal.
pub fn decimal(n: usize) -> (s: String)
    ensures
        s@ == decimal_digits(n as nat),
{
    let mut s = String::new();
    push_decimal(&mut s, n);
    assert(s@ =~= decimal_digits(n as nat));
    s
}

// ---------------------------------------------------------------------------
// The report's text, piece by piece
// ---------------------------------------------------------------------------

/// The conditions every measurement was taken under, as the report prints
/// them.
pub struct ReportConditions {
    /// The test tone the aliasing target is stated at, in Hz.
    pub tone_hz: u32,
    /// The hot drive, in dB, as printed.
    pub hot_drive: String,
    /// The transform length of the aliasing measurements.
    pub transform: usize,
    /// Samples discarded before the analysis window.
    pub preroll: usize,
    /// The block size the engine is driven with.
    pub block: usize,
    /// The shipped oversampling factor, as a menu index.
    pub default_factor: usize,
    /// When the report was generated, as printed.
    pub generated: String,
}

pub const REPORT_TITLE: &'static str = "# Noob Saturator: measured\n\n";
pub const REPORT_GENERATED_BY: &'static str = "Generated by `cargo run --release --bin benchmark`. Every row names the figure, where it \
         comes from, what this engine measures and whether the two agree.\n\n";
pub const REPORT_NOT_HERE: &'static str = "**What is not here, and will not be until somebody measures it.** No row compares this \
         plug-in with Ableton's Saturator, because nobody has measured Ableton's Saturator — not \
         this project, not the survey behind it, not any third party we could find. This document \
         says what floor we reach. It does not say by how much we beat them, and it will not until \
         a bench session in Live produces the other number.\n\n";
pub const CONDITIONS_HEAD: &'static str = "## Conditions\n\n| | |\n|---|---|\n";
pub const SUMMARY_HEAD: &'static str =
    "## Summary\n\n| section | meets | misses | no published figure |\n|---|---|---|---|\n";
pub const MISSES_NOTE: &'static str = "The misses are the honest part of this table and none of them is a widened tolerance. \
         Every one of them is the same row at the same condition: the **drive control at its \
         maximum**, +36 dB, which is a gain of 63 into the shape. At that setting a shaped \
         waveform's bandwidth runs past what any practical oversampling factor can contain \
         — for the wavefolder, past a megahertz — so the miss belongs to the operating point \
         rather than to the implementation, and the row is reported because the end of a \
         control's travel is a real condition somebody will use.\n\n";
pub const ROWS_HEAD: &'static str =
    "| quantity | target or published | measured | verdict | source |\n|---|---|---|---|---|\n";
pub const FACTORS_HEAD: &'static str = "## Aliasing against the oversampling factor\n\n";
pub const FACTORS_NOTE: &'static str = "Worst in-band alias below 10 kHz, in dB, over six tones from 3.5 kHz to 19 kHz at \
         an input gain of ten, 44.1 kHz. Two things come out of this table. It is the \
         argument for putting the factor on the panel with a number beside it rather than \
         hiding a quality switch in a context menu — the objection to a hidden trade-off \
         is not that a trade-off exists, it is that it is unquantified. And it is what \
         **set the shipped default**: sixteen times is the lowest factor that reaches the \
         target on every curve, and the single 15 kHz tone the target is stated at \
         flatters four and eight times by fifteen to thirty decibels, which a sweep does \
         not.\n\n";
pub const CURVES_HEAD: &'static str = "## The curves, and their antiderivatives\n\n";
pub const PROBE_HEAD: &'static str = "## The out-of-tree probe\n\n";
pub const PROBE_MISSING: &'static str = "`cargo run --release --bin benchmark -- --wav DIR` writes the stimulus and the \
             response for every curve as 32-bit float WAV files. The probe reads those two files, \
             finds the fundamental for itself and computes the aliasing figure with its own \
             transform, having never seen this repository's Rust. This project has found nine \
             circular tests across five plug-ins, which is why a figure this document exists to \
             publish is not allowed to rest on code that shares a line with the code under test.\n";
pub const READING_HEAD: &'static str = "## Reading a miss\n\n";
pub const READING_A_MISS: &'static str = "A miss here is not a defect to be hidden. The rule this file obeys is the repository's: \
         where the engine cannot reach a figure, the figure and the gap are both printed and the \
         explanation sits beside them. Never widen an assertion until it passes, and never assert \
         a value the model itself produced.\n";

/// The latency the shipped factor reports, in base-rate samples.
pub open spec fn shipped_latency(factor_index: int) -> nat {
    round_trip(clamp_depth(factor_index + 1))
}

/// A table line: a label, a value and the text after it.
pub open spec fn labelled(label: Seq<char>, value: Seq<char>, tail: Seq<char>) -> Seq<char> {
    label + value + tail
}

/// The conditions table.
pub open spec fn conditions_table(c: ReportConditions) -> Seq<char> {
    CONDITIONS_HEAD@ + ("| test tone | "@ + decimal_digits(c.tone_hz as nat) + " Hz, full scale |\n"@)
        + ("| hot drive | +"@ + c.hot_drive@ + " dB, an input gain of ten into the shape |\n"@)
        + ("| transform | "@ + decimal_digits(c.transform as nat) + " points, rectangular, bin-locked |\n"@)
        + ("| discarded | "@ + decimal_digits(c.preroll as nat) + " samples of pre-roll |\n"@)
        + ("| block size | "@ + decimal_digits(c.block as nat) + " samples |\n"@) + ("| shipped default | "@
        + FACTOR_NAMES@[c.default_factor as int]@ + " oversampling, "@ + decimal_digits(
        shipped_latency(c.default_factor as int),
    ) + " samples of latency |\n"@) + ("| generated | "@ + c.generated@ + " |\n"@) + "\n"@
}

/// How many rows of all of `sections` carry the verdict `v`.
pub open spec fn verdict_total(sections: Seq<Section>, v: Verdict) -> nat
    decreases sections.len(),
{
    if sections.len() == 0 {
        0
    } else {
        verdict_total(sections.drop_last(), v) + count_verdict(sections.last().rows@, v)
    }
}

/// How many rows `sections` hold between them.
pub open spec fn total_rows(sections: Seq<Section>) -> nat
    decreases sections.len(),
{
    if sections.len() == 0 {
        0
    } else {
        total_rows(sections.drop_last()) + sections.last().rows@.len()
    }
}

/// One section's line of the summary: its title and its three tallies.
pub open spec fn summary_line(s: Section) -> Seq<char> {
    "| "@ + s.title@ + " | "@ + decimal_digits(count_verdict(s.rows@, Verdict::Meets)) + " | "@
        + decimal_digits(count_verdict(s.rows@, Verdict::Misses)) + " | "@ + decimal_digits(
        count_verdict(s.rows@, Verdict::NoFigure),
    ) + " |\n"@
}

/// Every section's summary line, in order.
pub open spec fn summary_lines(sections: Seq<Section>) -> Seq<char>
    decreases sections.len(),
{
    if sections.len() == 0 {
        Seq::empty()
    } else {
        summary_lines(sections.drop_last()) + summary_line(sections.last())
    }
}

/// The summary's last line: the tallies summed over every section.
pub open spec fn totals_line(sections: Seq<Section>) -> Seq<char> {
    "| **all** | **"@ + decimal_digits(verdict_total(sections, Verdict::Meets)) + "** | **"@
        + decimal_digits(verdict_total(sections, Verdict::Misses)) + "** | **"@ + decimal_digits(
        verdict_total(sections, Verdict::NoFigure),
    ) + "** |\n\n"@
}

/// The summary table.
pub open spec fn summary_table(sections: Seq<Section>) -> Seq<char> {
    SUMMARY_HEAD@ + summary_lines(sections) + totals_line(sections)
}

/// One row of a section's table, with its verdict's mark.
pub open spec fn row_line(r: Row) -> Seq<char> {
    "| "@ + r.quantity@ + " | "@ + r.published@ + " | "@ + r.measured@ + " | "@ + verdict_mark(
        r.verdict,
    ) + " | "@ + r.source@ + " |\n"@
}

/// Every row's line, in order: no row is left out.
pub open spec fn row_lines(rows: Seq<Row>) -> Seq<char>
    decreases rows.len(),
{
    if rows.len() == 0 {
        Seq::empty()
    } else {
        row_lines(rows.drop_last()) + row_line(rows.last())
    }
}

/// A row's note line, or nothing for a row without a note.
pub open spec fn note_line(r: Row) -> Seq<char> {
    if r.note@.len() == 0 {
        Seq::empty()
    } else {
        "- **"@ + r.quantity@ + "**: "@ + r.note@ + "\n"@
    }
}

/// The note lines of the rows that have notes, in order.
pub open spec fn note_lines(rows: Seq<Row>) -> Seq<char>
    decreases rows.len(),
{
    if rows.len() == 0 {
        Seq::empty()
    } else {
        note_lines(rows.drop_last()) + note_line(rows.last())
    }
}

/// Whether any of `rows` has a note.
pub open spec fn any_note(rows: Seq<Row>) -> bool
    decreases rows.len(),
{
    if rows.len() == 0 {
        false
    } else {
        any_note(rows.drop_last()) || rows.last().note@.len() > 0
    }
}

/// The notes under a section's table: nothing when no row has one.
pub open spec fn notes_block(rows: Seq<Row>) -> Seq<char> {
    if any_note(rows) {
        "Notes:\n\n"@ + note_lines(rows) + "\n"@
    } else {
        Seq::empty()
    }
}

/// One section: its title, its blurb, its table and its notes.
pub open spec fn section_text(s: Section) -> Seq<char> {
    "## "@ + s.title@ + "\n\n"@ + s.blurb@ + "\n\n"@ + ROWS_HEAD@ + row_lines(s.rows@) + "\n"@
        + notes_block(s.rows@)
}

/// Every section, in order.
pub open spec fn sections_text(sections: Seq<Section>) -> Seq<char>
    decreases sections.len(),
{
    if sections.len() == 0 {
        Seq::empty()
    } else {
        sections_text(sections.drop_last()) + section_text(sections.last())
    }
}

/// The probe's account, or what the report says when there is none.
pub open spec fn probe_text(probe: Option<&str>) -> Seq<char> {
    match probe {
        Some(p) => p@,
        None => PROBE_MISSING@,
    }
}

/// What comes before the summary: the title, the preface and the
/// conditions.
pub open spec fn report_head(c: ReportConditions) -> Seq<char> {
    REPORT_TITLE@ + REPORT_GENERATED_BY@ + REPORT_NOT_HERE@ + conditions_table(c)
}

/// The summary, the note on the misses, and every section.
pub open spec fn report_body(sections: Seq<Section>) -> Seq<char> {
    summary_table(sections) + MISSES_NOTE@ + sections_text(sections)
}

/// What comes after the sections: the factor table, the curve table, the
/// probe's account and how to read a miss.
pub open spec fn report_tail(factors: Seq<char>, probe: Option<&str>) -> Seq<char> {
    FACTORS_HEAD@ + FACTORS_NOTE@ + factors + "\n"@ + CURVES_HEAD@ + joined(CURVE_TABLE_PARTS@)
        + "\n"@ + PROBE_HEAD@ + probe_text(probe) + "\n"@ + READING_HEAD@ + READING_A_MISS@
}

/// The whole report.
pub open spec fn report_doc(
    sections: Seq<Section>,
    c: ReportConditions,
    factors: Seq<char>,
    probe: Option<&str>,
) -> Seq<char> {
    report_head(c) + report_body(sections) + report_tail(factors, probe)
}

/// **The summary's last line is the sum of the sections' lines**, and the
/// three tallies together count every row of every section: no row is
/// missing from the summary and none is counted twice.
pub proof fn lemma_totals_count_every_row(sections: Seq<Section>)
    ensures
        verdict_total(sections, Verdict::Meets) + verdict_total(sections, Verdict::Misses)
            + verdict_total(sections, Verdict::NoFigure) == total_rows(sections),
    decreases sections.len(),
{
    if sections.len() > 0 {
        lemma_totals_count_every_row(sections.drop_last());
        lemma_tallies_cover_every_row(sections.last().rows@);
    }
}

// ---------------------------------------------------------------------------
// What the report says, stated from its inputs
// ---------------------------------------------------------------------------

/// `needle` stands in `hay` from position `at` on.
pub open spec fn occurs_at(hay: Seq<char>, needle: Seq<char>, at: int) -> bool {
    &&& 0 <= at
    &&& at + needle.len() <= hay.len()
    &&& hay.subrange(at, at + needle.len()) == needle
}

proof fn lemma_flatten_step<A>(m: Seq<Seq<A>>)
    requires
        m.len() > 0,
    ensures
        m.flatten() == m.drop_last().flatten() + m.last(),
{
    m.drop_last().lemma_flatten_push(m.last());
    assert(m.drop_last().push(m.last()) =~= m);
}

proof fn lemma_row_lines_in_order(rows: Seq<Row>)
    ensures
        row_lines(rows) == rows.map_values(|r: Row| row_line(r)).flatten(),
    decreases rows.len(),
{
    let m = rows.map_values(|r: Row| row_line(r));
    if rows.len() == 0 {
        assert(m =~= Seq::<Seq<char>>::empty());
    } else {
        lemma_row_lines_in_order(rows.drop_last());
        assert(m.drop_last() =~= rows.drop_last().map_values(|r: Row| row_line(r)));
        lemma_flatten_step(m);
    }
}

proof fn lemma_note_lines_are_the_noted_rows(rows: Seq<Row>)
    ensures
        note_lines(rows) == rows.filter(|r: Row| r.note@.len() > 0).map_values(
            |r: Row| note_line(r),
        ).flatten(),
        any_note(rows) <==> rows.filter(|r: Row| r.note@.len() > 0).len() > 0,
    decreases rows.len(),
{
    reveal(Seq::filter);
    let f = rows.filter(|r: Row| r.note@.len() > 0);
    let m = f.map_values(|r: Row| note_line(r));
    if rows.len() == 0 {
        assert(m =~= Seq::<Seq<char>>::empty());
    } else {
        lemma_note_lines_are_the_noted_rows(rows.drop_last());
        let f0 = rows.drop_last().filter(|r: Row| r.note@.len() > 0);
        let m0 = f0.map_values(|r: Row| note_line(r));
        if rows.last().note@.len() > 0 {
            assert(f == f0.push(rows.last()));
            assert(m.drop_last() =~= m0);
            lemma_flatten_step(m);
        } else {
            assert(f == f0);
            assert(note_line(rows.last()) =~= Seq::<char>::empty());
        }
    }
}

proof fn lemma_summary_lines_in_order(sections: Seq<Section>)
    ensures
        summary_lines(sections) == sections.map_values(|s: Section| summary_line(s)).flatten(),
    decreases sections.len(),
{
    let m = sections.map_values(|s: Section| summary_line(s));
    if sections.len() == 0 {
        assert(m =~= Seq::<Seq<char>>::empty());
    } else {
        lemma_summary_lines_in_order(sections.drop_last());
        assert(m.drop_last() =~= sections.drop_last().map_values(|s: Section| summary_line(s)));
        lemma_flatten_step(m);
    }
}

proof fn lemma_sections_in_order(sections: Seq<Section>)
    ensures
        sections_text(sections) == sections.map_values(|s: Section| section_text(s)).flatten(),
    decreases sections.len(),
{
    let m = sections.map_values(|s: Section| section_text(s));
    if sections.len() == 0 {
        assert(m =~= Seq::<Seq<char>>::empty());
    } else {
        lemma_sections_in_order(sections.drop_last());
        assert(m.drop_last() =~= sections.drop_last().map_values(|s: Section| section_text(s)));
        lemma_flatten_step(m);
    }
}

/// **A section prints every row, in order, with its verdict's mark, and then
/// lists under "Notes" exactly the rows that have a note, in order, one line
/// each** — nothing at all when no row has one.
pub proof fn lemma_section_prints_every_row_and_every_note(s: Section)
    ensures
        section_text(s) == "## "@ + s.title@ + "\n\n"@ + s.blurb@ + "\n\n"@
            + "| quantity | target or published | measured | verdict | source |\n|---|---|---|---|---|\n"@
            + s.rows@.map_values(
            |r: Row|
                "| "@ + r.quantity@ + " | "@ + r.published@ + " | "@ + r.measured@ + " | "@
                    + verdict_mark(r.verdict) + " | "@ + r.source@ + " |\n"@,
        ).flatten() + "\n"@ + if s.rows@.filter(|r: Row| r.note@.len() > 0).len() > 0 {
            "Notes:\n\n"@ + s.rows@.filter(|r: Row| r.note@.len() > 0).map_values(
                |r: Row| "- **"@ + r.quantity@ + "**: "@ + r.note@ + "\n"@,
            ).flatten() + "\n"@
        } else {
            Seq::empty()
        },
{
    lemma_row_lines_in_order(s.rows@);
    lemma_note_lines_are_the_noted_rows(s.rows@);
    let f = s.rows@.filter(|r: Row| r.note@.len() > 0);
    assert(s.rows@.map_values(|r: Row| row_line(r)) =~= s.rows@.map_values(
        |r: Row|
            "| "@ + r.quantity@ + " | "@ + r.published@ + " | "@ + r.measured@ + " | "@
                + verdict_mark(r.verdict) + " | "@ + r.source@ + " |\n"@,
    ));
    assert forall|i: int| 0 <= i < f.len() implies #[trigger] note_line(f[i]) == "- **"@
        + f[i].quantity@ + "**: "@ + f[i].note@ + "\n"@ by {
        s.rows@.lemma_filter_pred(|r: Row| r.note@.len() > 0, i);
    }
    assert(f.map_values(|r: Row| note_line(r)) =~= f.map_values(
        |r: Row| "- **"@ + r.quantity@ + "**: "@ + r.note@ + "\n"@,
    ));
}

/// The tallies over no sections are nothing, over one section they are that
/// section's, and over two runs of sections they add: so each total is the
/// sum of its column down the summary.
pub proof fn lemma_totals_add_up(a: Seq<Section>, b: Seq<Section>, v: Verdict)
    ensures
        verdict_total(Seq::empty(), v) == 0,
        a.len() == 1 ==> verdict_total(a, v) == count_verdict(a[0].rows@, v),
        verdict_total(a + b, v) == verdict_total(a, v) + verdict_total(b, v),
    decreases b.len(),
{
    if a.len() == 1 {
        assert(a.drop_last() =~= Seq::<Section>::empty());
        assert(verdict_total(a.drop_last(), v) == 0);
        assert(a.last() == a[0]);
    }
    if b.len() == 0 {
        assert(a + b =~= a);
    } else {
        lemma_totals_add_up(a, b.drop_last(), v);
        assert((a + b).drop_last() =~= a + b.drop_last());
    }
}

/// **The summary gives each section its three tallies and then their totals,
/// in the header's column order: meets, misses, no published figure.** The
/// summary, followed by the note on the misses and then every section in
/// order, stands in the report as one piece, from position `at` on.
pub proof fn lemma_summary_then_sections(
    sections: Seq<Section>,
    c: ReportConditions,
    factors: Seq<char>,
    probe: Option<&str>,
) -> (at: int)
    ensures
        occurs_at(
            report_doc(sections, c, factors, probe),
            "## Summary\n\n| section | meets | misses | no published figure |\n|---|---|---|---|\n"@
                + sections.map_values(
                |s: Section|
                    "| "@ + s.title@ + " | "@ + decimal_digits(count_verdict(s.rows@, Verdict::Meets))
                        + " | "@ + decimal_digits(count_verdict(s.rows@, Verdict::Misses)) + " | "@
                        + decimal_digits(count_verdict(s.rows@, Verdict::NoFigure)) + " |\n"@,
            ).flatten() + ("| **all** | **"@ + decimal_digits(verdict_total(sections, Verdict::Meets))
                + "** | **"@ + decimal_digits(verdict_total(sections, Verdict::Misses)) + "** | **"@
                + decimal_digits(verdict_total(sections, Verdict::NoFigure)) + "** |\n\n"@)
                + MISSES_NOTE@ + sections.map_values(|s: Section| section_text(s)).flatten(),
            at,
        ),
{
    lemma_summary_lines_in_order(sections);
    lemma_sections_in_order(sections);
    assert(sections.map_values(|s: Section| summary_line(s)) =~= sections.map_values(
        |s: Section|
            "| "@ + s.title@ + " | "@ + decimal_digits(count_verdict(s.rows@, Verdict::Meets)) + " | "@
                + decimal_digits(count_verdict(s.rows@, Verdict::Misses)) + " | "@ + decimal_digits(
                count_verdict(s.rows@, Verdict::NoFigure),
            ) + " |\n"@,
    ));
    let pre = report_head(c);
    let needle = report_body(sections);
    let post = report_tail(factors, probe);
    assert((pre + needle + post).subrange(pre.len() as int, (pre.len() + needle.len()) as int)
        =~= needle);
    pre.len() as int
}

/// **The report opens with its title, its preface and the conditions it was
/// measured under, each printed as given, and the shipped factor with the
/// latency that factor reports (64, 96, 112 or 120 samples); it closes with
/// the factor table, the curve table, the probe's account — or, without
/// one, how to run the probe — and how to read a miss.**
pub proof fn lemma_report_opens_and_closes(
    sections: Seq<Section>,
    c: ReportConditions,
    factors: Seq<char>,
    probe: Option<&str>,
)
    requires
        c.default_factor < FACTOR_NAMES@.len(),
    ensures
        ({
            let doc = report_doc(sections, c, factors, probe);
            let k = c.default_factor as int;
            let latency: nat = if k == 0 {
                64
            } else if k == 1 {
                96
            } else if k == 2 {
                112
            } else {
                120
            };
            let head = REPORT_TITLE@ + REPORT_GENERATED_BY@ + REPORT_NOT_HERE@ + (
            "## Conditions\n\n| | |\n|---|---|\n"@ + ("| test tone | "@ + decimal_digits(c.tone_hz as nat)
                + " Hz, full scale |\n"@) + ("| hot drive | +"@ + c.hot_drive@
                + " dB, an input gain of ten into the shape |\n"@) + ("| transform | "@ + decimal_digits(
                c.transform as nat,
            ) + " points, rectangular, bin-locked |\n"@) + ("| discarded | "@ + decimal_digits(
                c.preroll as nat,
            ) + " samples of pre-roll |\n"@) + ("| block size | "@ + decimal_digits(c.block as nat)
                + " samples |\n"@) + ("| shipped default | "@ + FACTOR_NAMES@[k]@ + " oversampling, "@
                + decimal_digits(latency) + " samples of latency |\n"@) + ("| generated | "@
                + c.generated@ + " |\n"@) + "\n"@);
            let tail = "## Aliasing against the oversampling factor\n\n"@ + FACTORS_NOTE@ + factors
                + "\n"@ + "## The curves, and their antiderivatives\n\n"@ + joined(CURVE_TABLE_PARTS@)
                + "\n"@ + "## The out-of-tree probe\n\n"@ + match probe {
                Some(p) => p@,
                None => PROBE_MISSING@,
            } + "\n"@ + "## Reading a miss\n\n"@ + READING_A_MISS@;
            &&& head.len() + tail.len() <= doc.len()
            &&& doc.take(head.len() as int) == head
            &&& doc.skip(doc.len() - tail.len()) == tail
        }),
{
    crate::dsp::oversample::lemma_round_trips();
    let k = c.default_factor as int;
    assert(shipped_latency(k) == if k == 0 {
        64nat
    } else if k == 1 {
        96nat
    } else if k == 2 {
        112nat
    } else {
        120nat
    });
    lemma_ends_of_three(report_head(c), report_body(sections), report_tail(factors, probe));
}

proof fn lemma_ends_of_three(a: Seq<char>, b: Seq<char>, c: Seq<char>)
    ensures
        (a + b + c).take(a.len() as int) == a,
        (a + b + c).skip((a + b + c).len() - c.len()) == c,
{
    assert((a + b + c).take(a.len() as int) =~= a);
    assert((a + b + c).skip((a + b + c).len() - c.len()) =~= c);
}

// ---------------------------------------------------------------------------
// Building it
// ---------------------------------------------------------------------------

fn push_str(out: &mut String, s: &str)
    ensures
        final(out)@ == old(out)@ + s@,
{
    out.append(s);
}

fn push_labelled(out: &mut String, label: &str, value: &str, tail: &str)
    ensures
        final(out)@ == old(out)@ + labelled(label@, value@, tail@),
{
    let ghost before = out@;
    push_str(out, label);
    push_str(out, value);
    push_str(out, tail);
    assert(out@ =~= before + labelled(label@, value@, tail@));
}

fn push_labelled_number(out: &mut String, label: &str, n: usize, tail: &str)
    ensures
        final(out)@ == old(out)@ + labelled(label@, decimal_digits(n as nat), tail@),
{
    let ghost before = out@;
    push_str(out, label);
    push_decimal(out, n);
    push_str(out, tail);
    assert(out@ =~= before + labelled(label@, decimal_digits(n as nat), tail@));
}

fn push_conditions(out: &mut String, c: &ReportConditions)
    requires
        c.default_factor < FACTOR_NAMES@.len(),
    ensures
        final(out)@ == old(out)@ + conditions_table(*c),
{
    let ghost before = out@;
    push_str(out, CONDITIONS_HEAD);
    push_labelled_number(out, "| test tone | ", c.tone_hz as usize, " Hz, full scale |\n");
    push_labelled(out, "| hot drive | +", c.hot_drive.as_str(), " dB, an input gain of ten into the shape |\n");
    push_labelled_number(out, "| transform | ", c.transform, " points, rectangular, bin-locked |\n");
    push_labelled_number(out, "| discarded | ", c.preroll, " samples of pre-roll |\n");
    push_labelled_number(out, "| block size | ", c.block, " samples |\n");
    push_labelled(out, "| shipped default | ", FACTOR_NAMES[c.default_factor], " oversampling, ");
    let depth = depth_for_index(c.default_factor);
    let latency = latency_for_depth(depth);
    push_labelled_number(out, "", latency, " samples of latency |\n");
    push_labelled(out, "| generated | ", c.generated.as_str(), " |\n");
    push_str(out, "\n");
    proof {
        reveal_strlit("");
        assert(""@ =~= Seq::<char>::empty());
    }
    assert(out@ =~= before + conditions_table(*c));
}

proof fn lemma_totals_bounded(sections: Seq<Section>, v: Verdict)
    ensures
        verdict_total(sections, v) <= total_rows(sections),
    decreases sections.len(),
{
    lemma_totals_count_every_row(sections);
}

proof fn lemma_total_rows_grows(sections: Seq<Section>, i: int)
    requires
        0 <= i <= sections.len(),
    ensures
        total_rows(sections.subrange(0, i)) <= total_rows(sections),
    decreases sections.len() - i,
{
    if i < sections.len() {
        lemma_total_rows_grows(sections, i + 1);
        assert(sections.subrange(0, i + 1).drop_last() =~= sections.subrange(0, i));
    } else {
        assert(sections.subrange(0, i) =~= sections);
    }
}

fn push_summary(out: &mut String, sections: &[Section])
    requires
        total_rows(sections@) <= usize::MAX,
    ensures
        final(out)@ == old(out)@ + summary_table(sections@),
{
    let ghost first = out@;
    push_str(out, SUMMARY_HEAD);
    let ghost start = out@;
    let n = sections.len();
    let mut tot_m: usize = 0;
    let mut tot_x: usize = 0;
    let mut tot_n: usize = 0;
    let mut i: usize = 0;
    assert(start + summary_lines(sections@.subrange(0, 0)) =~= start);
    while i < n
        invariant
            n == sections@.len(),
            i <= n,
            total_rows(sections@) <= usize::MAX,
            out@ == start + summary_lines(sections@.subrange(0, i as int)),
            tot_m == verdict_total(sections@.subrange(0, i as int), Verdict::Meets),
            tot_x == verdict_total(sections@.subrange(0, i as int), Verdict::Misses),
            tot_n == verdict_total(sections@.subrange(0, i as int), Verdict::NoFigure),
        decreases n - i,
    {
        let ghost prefix = sections@.subrange(0, i + 1);
        proof {
            assert(prefix.drop_last() =~= sections@.subrange(0, i as int));
            assert(prefix.last() == sections@[i as int]);
            lemma_total_rows_grows(sections@, i + 1);
            lemma_totals_bounded(prefix, Verdict::Meets);
            lemma_totals_bounded(prefix, Verdict::Misses);
            lemma_totals_bounded(prefix, Verdict::NoFigure);
        }
        let s = &sections[i];
        let (m, x, z) = s.counts();
        tot_m = tot_m + m;
        tot_x = tot_x + x;
        tot_n = tot_n + z;
        let ghost before = out@;
        push_str(out, "| ");
        push_str(out, s.title);
        push_str(out, " | ");
        push_decimal(out, m);
        push_str(out, " | ");
        push_decimal(out, x);
        push_str(out, " | ");
        push_decimal(out, z);
        push_str(out, " |\n");
        proof {
            assert(out@ =~= before + summary_line(sections@[i as int]));
            assert(out@ =~= start + summary_lines(prefix));
        }
        i = i + 1;
    }
    proof {
        assert(sections@.subrange(0, n as int) =~= sections@);
    }
    let ghost before = out@;
    push_str(out, "| **all** | **");
    push_decimal(out, tot_m);
    push_str(out, "** | **");
    push_decimal(out, tot_x);
    push_str(out, "** | **");
    push_decimal(out, tot_n);
    push_str(out, "** |\n\n");
    assert(out@ =~= before + totals_line(sections@));
    assert(out@ =~= first + summary_table(sections@));
}

fn push_section(out: &mut String, s: &Section)
    ensures
        final(out)@ == old(out)@ + section_text(*s),
{
    let ghost first = out@;
    push_str(out, "## ");
    push_str(out, s.title);
    push_str(out, "\n\n");
    push_str(out, s.blurb);
    push_str(out, "\n\n");
    push_str(out, ROWS_HEAD);
    let ghost start = out@;
    let n = s.rows.len();
    let mut i: usize = 0;
    assert(start + row_lines(s.rows@.subrange(0, 0)) =~= start);
    while i < n
        invariant
            n == s.rows@.len(),
            i <= n,
            out@ == start + row_lines(s.rows@.subrange(0, i as int)),
        decreases n - i,
    {
        let ghost prefix = s.rows@.subrange(0, i + 1);
        proof {
            assert(prefix.drop_last() =~= s.rows@.subrange(0, i as int));
            assert(prefix.last() == s.rows@[i as int]);
        }
        let r = &s.rows[i];
        let ghost before = out@;
        push_str(out, "| ");
        push_str(out, r.quantity.as_str());
        push_str(out, " | ");
        push_str(out, r.published.as_str());
        push_str(out, " | ");
        push_str(out, r.measured.as_str());
        push_str(out, " | ");
        push_str(out, r.verdict.mark());
        push_str(out, " | ");
        push_str(out, r.source.as_str());
        push_str(out, " |\n");
        proof {
            assert(out@ =~= before + row_line(s.rows@[i as int]));
            assert(out@ =~= start + row_lines(prefix));
        }
        i = i + 1;
    }
    proof {
        assert(s.rows@.subrange(0, n as int) =~= s.rows@);
    }
    push_str(out, "\n");
    let ghost tabled = out@;
    let mut notes = String::new();
    let mut any = false;
    let mut i: usize = 0;
    assert(notes@ =~= note_lines(s.rows@.subrange(0, 0)));
    while i < n
        invariant
            n == s.rows@.len(),
            i <= n,
            notes@ == note_lines(s.rows@.subrange(0, i as int)),
            any == any_note(s.rows@.subrange(0, i as int)),
        decreases n - i,
    {
        let ghost prefix = s.rows@.subrange(0, i + 1);
        proof {
            assert(prefix.drop_last() =~= s.rows@.subrange(0, i as int));
            assert(prefix.last() == s.rows@[i as int]);
        }
        let r = &s.rows[i];
        if !r.note.as_str().is_empty() {
            let ghost before = notes@;
            push_str(&mut notes, "- **");
            push_str(&mut notes, r.quantity.as_str());
            push_str(&mut notes, "**: ");
            push_str(&mut notes, r.note.as_str());
            push_str(&mut notes, "\n");
            any = true;
            proof {
                assert(notes@ =~= before + note_line(s.rows@[i as int]));
            }
        } else {
            proof {
                assert(notes@ =~= notes@ + note_line(s.rows@[i as int]));
            }
        }
        i = i + 1;
    }
    proof {
        assert(s.rows@.subrange(0, n as int) =~= s.rows@);
    }
    if any {
        push_str(out, "Notes:\n\n");
        push_str(out, notes.as_str());
        push_str(out, "\n");
    }
    assert(out@ =~= first + section_text(*s));
}

fn push_head(out: &mut String, c: &ReportConditions)
    requires
        c.default_factor < FACTOR_NAMES@.len(),
    ensures
        final(out)@ == old(out)@ + report_head(*c),
{
    let ghost before = out@;
    push_str(out, REPORT_TITLE);
    push_str(out, REPORT_GENERATED_BY);
    push_str(out, REPORT_NOT_HERE);
    push_conditions(out, c);
    assert(out@ =~= before + report_head(*c));
}

fn push_sections(out: &mut String, sections: &[Section])
    ensures
        final(out)@ == old(out)@ + sections_text(sections@),
{
    let ghost start = out@;
    let n = sections.len();
    let mut i: usize = 0;
    assert(start + sections_text(sections@.subrange(0, 0)) =~= start);
    while i < n
        invariant
            n == sections@.len(),
            i <= n,
            out@ == start + sections_text(sections@.subrange(0, i as int)),
        decreases n - i,
    {
        let ghost prefix = sections@.subrange(0, i + 1);
        proof {
            assert(prefix.drop_last() =~= sections@.subrange(0, i as int));
            assert(prefix.last() == sections@[i as int]);
        }
        push_section(out, &sections[i]);
        proof {
            assert(out@ =~= start + sections_text(prefix));
        }
        i = i + 1;
    }
    proof {
        assert(sections@.subrange(0, n as int) =~= sections@);
    }
}

fn push_tail(out: &mut String, factors: &str, probe: Option<&str>)
    ensures
        final(out)@ == old(out)@ + report_tail(factors@, probe),
{
    let ghost before = out@;
    push_str(out, FACTORS_HEAD);
    push_str(out, FACTORS_NOTE);
    push_str(out, factors);
    push_str(out, "\n");
    push_str(out, CURVES_HEAD);
    let table = curve_table();
    push_str(out, table.as_str());
    push_str(out, "\n");
    push_str(out, PROBE_HEAD);
    match probe {
        Some(p) => push_str(out, p),
        None => push_str(out, PROBE_MISSING),
    }
    push_str(out, "\n");
    push_str(out, READING_HEAD);
    push_str(out, READING_A_MISS);
    assert(out@ =~= before + report_tail(factors@, probe));
}

/// Render the report. `factors` is the factor table and `probe` the
/// out-of-tree probe's account, both already text. The report prints every
/// section's tallies and their totals, then every section with every row and
/// its verdict's mark, then the notes of the rows that have them.
pub fn render_report(
    sections: &[Section],
    conditions: &ReportConditions,
    factors: &str,
    probe: Option<&str>,
) -> (doc: String)
    requires
        conditions.default_factor < FACTOR_NAMES@.len(),
        total_rows(sections@) <= usize::MAX,
    ensures
        doc@ == report_doc(sections@, *conditions, factors@, probe),
{
    let mut out = String::new();
    push_head(&mut out, conditions);
    assert(out@ =~= report_head(*conditions));
    let ghost head = out@;
    push_summary(&mut out, sections);
    push_str(&mut out, MISSES_NOTE);
    push_sections(&mut out, sections);
    assert(out@ =~= head + report_body(sections@));
    let ghost body = out@;
    push_tail(&mut out, factors, probe);
    out
}

} // verus!
