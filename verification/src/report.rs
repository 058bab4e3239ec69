//! The benchmark's report bookkeeping: each row's verdict, a section's
//! tally, which transform bins count as signal, and the printed table of
//! curves.
//!
//! The benchmark measures the engine against figures that come from
//! somewhere else — the literature, a probe written outside this
//! repository, or an identity that follows from the architecture — and
//! every row says which. A row whose published column reads *(none
//! published)* is there deliberately: knowing that nothing anchors a
//! behaviour is as useful as knowing that something does.

use vstd::prelude::*;

verus! {

/// How a measurement stands against its figure.
#[derive(Clone, Copy, PartialEq, Eq, Debug, Structural)]
pub enum Verdict {
    Meets,
    Misses,
    NoFigure,
}

/// What the report prints for a verdict.
pub open spec fn verdict_mark(v: Verdict) -> Seq<char> {
    match v {
        Verdict::Meets => "meets"@,
        Verdict::Misses => "**misses**"@,
        Verdict::NoFigure => "no figure"@,
    }
}

impl Verdict {
    /// The mark printed in the verdict column.
    pub fn mark(self) -> (m: &'static str)
        ensures
            m@ == verdict_mark(self),
    {
        match self {
            Verdict::Meets => "meets",
            Verdict::Misses => "**misses**",
            Verdict::NoFigure => "no figure",
        }
    }
}

/// One row of the report.
pub struct Row {
    pub quantity: String,
    pub published: String,
    pub measured: String,
    pub source: String,
    pub verdict: Verdict,
    pub note: String,
}

impl Row {
    /// A row with its figure, its measurement, where the figure comes from,
    /// the verdict, and no note.
    pub fn new(quantity: &str, published: &str, measured: String, source: &str, verdict: Verdict) -> (r: Self)
        ensures
            r.quantity@ == quantity@,
            r.published@ == published@,
            r.measured@ == measured@,
            r.source@ == source@,
            r.verdict == verdict,
            r.note@ == Seq::<char>::empty(),
    {
        Row {
            quantity: quantity.to_owned(),
            published: published.to_owned(),
            measured,
            source: source.to_owned(),
            verdict,
            note: String::new(),
        }
    }

    /// A behaviour with no published number: the measurement is recorded,
    /// and the note says why nothing anchors it.
    pub fn unanchored(quantity: &str, measured: String, why: &str) -> (r: Self)
        ensures
            r.quantity@ == quantity@,
            r.published@ == "*(none published)*"@,
            r.measured@ == measured@,
            r.source@ == "—"@,
            r.verdict == Verdict::NoFigure,
            r.note@ == why@,
    {
        let mut r = Row::new(quantity, "*(none published)*", measured, "—", Verdict::NoFigure);
        r.note = why.to_owned();
        r
    }

    /// The same row with `note` as its note.
    pub fn because(self, note: &str) -> (r: Self)
        ensures
            r.quantity == self.quantity,
            r.published == self.published,
            r.measured == self.measured,
            r.source == self.source,
            r.verdict == self.verdict,
            r.note@ == note@,
    {
        let mut r = self;
        r.note = note.to_owned();
        r
    }
}

/// How many of `rows` carry the verdict `v`.
pub open spec fn count_verdict(rows: Seq<Row>, v: Verdict) -> nat
    decreases rows.len(),
{
    if rows.len() == 0 {
        0
    } else {
        count_verdict(rows.drop_last(), v) + if rows.last().verdict == v {
            1nat
        } else {
            0nat
        }
    }
}

/// Every row carries exactly one verdict, so the three tallies of a section
/// add up to its rows.
pub proof fn lemma_tallies_cover_every_row(rows: Seq<Row>)
    ensures
        count_verdict(rows, Verdict::Meets) + count_verdict(rows, Verdict::Misses) + count_verdict(
            rows,
            Verdict::NoFigure,
        ) == rows.len(),
    decreases rows.len(),
{
    if rows.len() > 0 {
        lemma_tallies_cover_every_row(rows.drop_last());
    }
}

/// **A tally is the number of rows with that verdict**: counting verdict `v`
/// over `rows` gives the length of `rows` filtered down to the rows whose
/// verdict is `v`.
pub proof fn lemma_tally_counts_the_rows_with_that_verdict(rows: Seq<Row>, v: Verdict)
    ensures
        count_verdict(rows, v) == rows.filter(|r: Row| r.verdict == v).len(),
    decreases rows.len(),
{
    reveal(Seq::filter);
    if rows.len() > 0 {
        lemma_tally_counts_the_rows_with_that_verdict(rows.drop_last(), v);
    }
}

/// **Each verdict prints its own mark, and no two share one**: a met figure
/// reads "meets", a missed one "**misses**" in bold, and a row with nothing
/// to compare against "no figure".
pub proof fn lemma_each_verdict_has_its_own_mark()
    ensures
        verdict_mark(Verdict::Meets) == "meets"@,
        verdict_mark(Verdict::Misses) == "**misses**"@,
        verdict_mark(Verdict::NoFigure) == "no figure"@,
        forall|a: Verdict, b: Verdict| verdict_mark(a) == verdict_mark(b) ==> a == b,
{
    reveal_strlit("meets");
    reveal_strlit("**misses**");
    reveal_strlit("no figure");
    assert forall|a: Verdict, b: Verdict| verdict_mark(a) == verdict_mark(b) implies a == b by {
        if a != b {
            if a == Verdict::Meets || b == Verdict::Meets {
                assert("meets"@.len() != "**misses**"@.len());
                assert("meets"@.len() != "no figure"@.len());
            } else {
                assert("**misses**"@.len() != "no figure"@.len() || "**misses**"@[0] != "no figure"@[0]);
            }
        }
    }
}

/// One section of the report.
pub struct Section {
    pub title: &'static str,
    pub blurb: &'static str,
    pub rows: Vec<Row>,
}

impl Section {
    /// How many rows meet their figure, miss it, and have none.
    pub fn counts(&self) -> (c: (usize, usize, usize))
        ensures
            c.0 == count_verdict(self.rows@, Verdict::Meets),
            c.1 == count_verdict(self.rows@, Verdict::Misses),
            c.2 == count_verdict(self.rows@, Verdict::NoFigure),
    {
        let n = self.rows.len();
        let mut m: usize = 0;
        let mut x: usize = 0;
        let mut none: usize = 0;
        let mut i: usize = 0;
        while i < n
            invariant
                n == self.rows@.len(),
                i <= n,
                m == count_verdict(self.rows@.subrange(0, i as int), Verdict::Meets),
                x == count_verdict(self.rows@.subrange(0, i as int), Verdict::Misses),
                none == count_verdict(self.rows@.subrange(0, i as int), Verdict::NoFigure),
                m + x + none == i,
            decreases n - i,
        {
            proof {
                let next = self.rows@.subrange(0, i + 1);
                assert(next.drop_last() =~= self.rows@.subrange(0, i as int));
                lemma_tallies_cover_every_row(self.rows@.subrange(0, i as int));
            }
            let v = self.rows[i].verdict;
            if v == Verdict::Meets {
                m = m + 1;
            } else if v == Verdict::Misses {
                x = x + 1;
            } else {
                none = none + 1;
            }
            i = i + 1;
        }
        proof {
            assert(self.rows@.subrange(0, n as int) =~= self.rows@);
        }
        (m, x, none)
    }
}

/// Bin `k` lies within two bins of the `m`-th harmonic of `b0`, and that
/// harmonic is below `half`.
pub open spec fn near_harmonic(k: int, b0: int, half: int, m: int) -> bool {
    &&& m >= 1
    &&& m * b0 < half
    &&& -2 <= k - m * b0 <= 2
}

/// Is bin `k` within two bins of a harmonic of `b0` that genuinely lies
/// below Nyquist (bin `half`)? Those are signal. Everything else in the band
/// is not.
///
/// A fundamental at bin zero has no harmonics to speak of; asked about one,
/// the answer is only defined where the search ends, with nothing below
/// `half` or a bin within two of the origin.
pub fn is_harmonic(k: usize, b0: usize, half: usize) -> (h: bool)
    requires
        b0 > 0 || half == 0 || k <= 2,
    ensures
        h == exists|m: int| near_harmonic(k as int, b0 as int, half as int, m),
{
    let mut m: usize = 1;
    let mut c: usize = b0;
    loop
        invariant
            m >= 1,
            c == m * b0,
            b0 > 0 || half == 0 || k <= 2,
            forall|j: int|
                1 <= j < m ==> !(#[trigger] near_harmonic(k as int, b0 as int, half as int, j)),
        decreases usize::MAX - c,
    {
        if c >= half {
            proof {
                assert forall|j: int| near_harmonic(k as int, b0 as int, half as int, j) implies false by {
                    if j >= m {
                        assert(j * b0 >= m * b0) by (nonlinear_arith)
                            requires
                                j >= m,
                                b0 >= 0,
                        ;
                    }
                }
            }
            return false;
        }
        if (k >= c && k - c <= 2) || (c > k && c - k <= 2) {
            assert(near_harmonic(k as int, b0 as int, half as int, m as int));
            return true;
        }
        if b0 == 0 {
            proof {
                assert forall|j: int| near_harmonic(k as int, b0 as int, half as int, j) implies false by {
                    assert(j * b0 == 0) by (nonlinear_arith)
                        requires
                            b0 == 0,
                    ;
                }
            }
            return false;
        }
        if c > usize::MAX - b0 {
            // The next harmonic is beyond any bin, and so beyond `half`.
            proof {
                assert forall|j: int| near_harmonic(k as int, b0 as int, half as int, j) implies false by {
                    if j > m {
                        assert(j * b0 >= (m + 1) * b0) by (nonlinear_arith)
                            requires
                                j >= m + 1,
                                b0 >= 0,
                        ;
                        assert((m + 1) * b0 == m * b0 + b0) by (nonlinear_arith);
                    }
                }
            }
            return false;
        }
        proof {
            assert((m + 1) * b0 == m * b0 + b0) by (nonlinear_arith);
            assert(m + 1 <= usize::MAX) by (nonlinear_arith)
                requires
                    m * b0 + b0 <= usize::MAX,
                    b0 >= 1,
            ;
        }
        c = c + b0;
        m = m + 1;
    }
}

/// The parts of the printed table of curves, in order.
pub const CURVE_TABLE_PARTS: [&'static str; 10] = [
    "Every curve here is ours. We do not copy Ableton's: they are unverifiable, they are not \
         modelled on anything, and \"sounds like Saturator\" is a taste claim rather than a \
         measurement. What we do instead is print the equations, which no Ableton document does \
         for any device.\n\n",
    "| curve | `f(x)` | `F₀(x)`, with `F₀(0) = 0` |\n|---|---|---|\n",
    "| Warm | `(2/π)·atan(πx/2)` | `(2/π)·x·atan(πx/2) − (2/π²)·ln(1 + π²x²/4)` |\n",
    "| Round | `x/√(1+x²)` | `√(1+x²) − 1` |\n",
    "| Soft | `tanh x` | `ln cosh x` |\n",
    "| Clip | `x` for `\\|x\\| ≤ k`; `sgn(x)·(\\|x\\| − (\\|x\\|−k)²/(4(1−k)))` for \
         `k < \\|x\\| < 2−k`; `sgn(x)` beyond, where `k = 1 − knee` | `x²/2`; \
         `x²/2 − (\\|x\\|−k)³/(12(1−k))`; `C + (\\|x\\| − (2−k))` with \
         `C = (2−k)²/2 − ⅔(1−k)²` |\n",
    "| Fold | `sin x` | `1 − cos x` |\n",
    "| Gate | `2·tanh x − tanh 2x` | `2·ln cosh x − ½·ln cosh 2x` |\n",
    "\nAll six are odd. All have unit slope at the origin except **Gate**, which has zero \
         slope there on purpose and behaves as `2x³` near it — so its flattening is a rounded \
         corner rather than a discontinuity, which matters, because a discontinuity in the function \
         itself is the one case first-order antialiasing handles worst. All reach a ceiling of \
         exactly 1 except **Fold**, which folds back through it; a wavefolder is the field's \
         standard heavy-aliasing testbench, and it is the curve that decides whether the target is \
         met.\n\n",
    "The **Clip** knee is continuous in value and in slope at both joints, so the curve has no \
         corner anywhere except at knee zero, where the corner is the point. The same shape is the \
         ceiling stage after the shaper, which is why there is one knee control and not two.\n"
];

/// The views of `parts`, one after another.
pub open spec fn joined(parts: Seq<&'static str>) -> Seq<char>
    decreases parts.len(),
{
    if parts.len() == 0 {
        Seq::empty()
    } else {
        joined(parts.drop_last()) + parts.last()@
    }
}

/// The table of curves and their antiderivatives, with the notes that go
/// under it, as the report prints it.
pub fn curve_table() -> (t: String)
    ensures
        t@ == joined(CURVE_TABLE_PARTS@),
{
    let mut out = String::new();
    let mut i: usize = 0;
    while i < CURVE_TABLE_PARTS.len()
        invariant
            i <= CURVE_TABLE_PARTS@.len(),
            out@ == joined(CURVE_TABLE_PARTS@.subrange(0, i as int)),
        decreases CURVE_TABLE_PARTS@.len() - i,
    {
        proof {
            assert(CURVE_TABLE_PARTS@.subrange(0, i + 1).drop_last() =~= CURVE_TABLE_PARTS@.subrange(0, i as int));
        }
        out.append(CURVE_TABLE_PARTS[i]);
        i = i + 1;
    }
    proof {
        assert(CURVE_TABLE_PARTS@.subrange(0, i as int) =~= CURVE_TABLE_PARTS@);
    }
    out
}

} // verus!
