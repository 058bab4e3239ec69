//! The DSP's layout: the curve menu, the oversampling cascade and its delay
//! lines, and the fixed numbering of the streams and the parameters that the
//! plug-in, the standalone and the page all share.
//!
//! ## Streams
//!
//! | id | values | contents |
//! |---|---|---|
//! | `meter` | 4 | `[in_peak, out_peak, in_rms, out_rms]`, linear amplitude |
//! | `alias` | 4 | `[alias_db, f0_hz, confidence, harmonic_db]` |
//! | `transfer` | [`engine::TRANSFER_POINTS`] | the static transfer curve |
//! | `color` | [`engine::COLOR_POINTS`] | the pre-shaper equaliser's magnitude in dB |
//! | `latency` | 5 | `[wet_samples, dry_samples, reported_samples, sample_rate, kernel_frac]` |
//! | `spec_in`, `spec_out` | [`SPECTRUM_BINS`] | magnitudes in dB of the readout's transforms |
//!
//! ## Parameters
//!
//! Ids are stable API. [`PARAM_IDS`] lists them in the order
//! [`param_index_from`] reads its lookups, the fifteen the device always has
//! first and the standalone's three demo-source parameters last.
//!
//! ## Publishing
//!
//! [`PublishSchedule`] decides, block by block, which of the sticky streams
//! go out: the alignment frame whenever the factor, the rate or the state has
//! moved, and the two curves when something they depend on has moved, on
//! every fourth block only, so a swept knob does not flood the wire.

pub mod adaa;
pub mod alias;
pub mod curve;
pub mod engine;
pub mod oversample;
pub mod publish;
pub mod source;

pub use curve::{CURVE_NAMES, Curve};
pub use engine::{CLIP_MODE_NAMES, COLOR_POINTS, MIX_LAW_NAMES, TRANSFER_POINTS};
pub use publish::PublishSchedule;
pub use oversample::FACTOR_NAMES;
pub use source::SOURCE_NAMES;

use vstd::prelude::*;

verus! {

/// Values in one `meter` frame.
pub const METER_LEN: usize = 4;
/// Values in one `alias` frame.
pub const ALIAS_LEN: usize = 4;
/// Values in one `latency` frame.
pub const LATENCY_LEN: usize = 5;
/// Bins in one spectrum frame: the positive half of the readout's transform.
pub const SPECTRUM_BINS: usize = alias::WINDOW / 2;

/// A spectrum frame is the positive half of the readout's transform.
pub proof fn lemma_spectrum_is_half_the_window()
    ensures
        SPECTRUM_BINS == alias::WINDOW / 2,
{
}

/// Stream indices, in the order the streams are declared.
#[derive(Clone, Copy, Debug)]
pub struct StreamIx {
    pub meter: usize,
    pub alias: usize,
    pub transfer: usize,
    pub color: usize,
    pub latency: usize,
    pub spec_in: usize,
    pub spec_out: usize,
}

/// The fixed stream layout, as a value.
pub open spec fn stream_layout() -> StreamIx {
    StreamIx { meter: 0, alias: 1, transfer: 2, color: 3, latency: 4, spec_in: 5, spec_out: 6 }
}

/// The fixed stream layout.
pub fn stream_ix() -> (ix: StreamIx)
    ensures
        ix == stream_layout(),
{
    StreamIx { meter: 0, alias: 1, transfer: 2, color: 3, latency: 4, spec_in: 5, spec_out: 6 }
}

/// Number of streams.
pub const STREAM_COUNT: usize = 7;

/// The stream ids, in declaration order.
pub const STREAM_IDS: [&'static str; 7] = [
    "meter",
    "alias",
    "transfer",
    "color",
    "latency",
    "spec_in",
    "spec_out",
];

/// The layout names every stream exactly once: each index is in range, no
/// two streams share one, and each index is the position of that stream's
/// id in [`STREAM_IDS`].
pub proof fn lemma_stream_layout_is_a_numbering()
    ensures
        stream_layout().meter < STREAM_COUNT && stream_layout().alias < STREAM_COUNT
            && stream_layout().transfer < STREAM_COUNT && stream_layout().color < STREAM_COUNT
            && stream_layout().latency < STREAM_COUNT && stream_layout().spec_in < STREAM_COUNT
            && stream_layout().spec_out < STREAM_COUNT,
        stream_layout().meter != stream_layout().alias && stream_layout().alias != stream_layout().transfer
            && stream_layout().transfer != stream_layout().color && stream_layout().color != stream_layout().latency
            && stream_layout().latency != stream_layout().spec_in && stream_layout().spec_in != stream_layout().spec_out,
        STREAM_IDS@[stream_layout().meter as int]@ == "meter"@,
        STREAM_IDS@[stream_layout().alias as int]@ == "alias"@,
        STREAM_IDS@[stream_layout().transfer as int]@ == "transfer"@,
        STREAM_IDS@[stream_layout().color as int]@ == "color"@,
        STREAM_IDS@[stream_layout().latency as int]@ == "latency"@,
        STREAM_IDS@[stream_layout().spec_in as int]@ == "spec_in"@,
        STREAM_IDS@[stream_layout().spec_out as int]@ == "spec_out"@,
{
}

// ---------------------------------------------------------------------------
// Parameters
// ---------------------------------------------------------------------------

/// Every parameter id, the device's own fifteen first and the standalone's
/// demo-source three last.
pub const PARAM_IDS: [&'static str; 18] = [
    "drive",
    "bias",
    "curve",
    "output",
    "mix",
    "mix_law",
    "color_on",
    "color_base",
    "color_freq",
    "color_q",
    "color_depth",
    "dc_block",
    "clip_mode",
    "clip_knee",
    "oversample",
    "src_kind",
    "src_level",
    "src_freq",
];

/// How many of [`PARAM_IDS`] every bridge has: all but the demo source's.
pub const REQUIRED_PARAMS: usize = 15;

/// Parameter indices, resolved once so the audio thread never looks an id up
/// by string.
#[derive(Clone, Copy, Debug)]
pub struct ParamIx {
    pub drive: usize,
    pub bias: usize,
    pub curve: usize,
    pub output: usize,
    pub mix: usize,
    pub mix_law: usize,
    pub color_on: usize,
    pub color_base: usize,
    pub color_freq: usize,
    pub color_q: usize,
    pub color_depth: usize,
    pub dc_block: usize,
    pub clip_mode: usize,
    pub clip_knee: usize,
    pub oversample: usize,
    pub src_kind: Option<usize>,
    pub src_level: Option<usize>,
    pub src_freq: Option<usize>,
}

/// Whether every parameter the device always has was found.
pub open spec fn all_required_found(found: Seq<Option<usize>>) -> bool {
    forall|i: int| 0 <= i < REQUIRED_PARAMS ==> (#[trigger] found[i]) is Some
}

/// The indices, read off the lookups in [`PARAM_IDS`] order.
pub open spec fn param_ix_of(found: Seq<Option<usize>>) -> ParamIx {
    ParamIx {
        drive: found[0].unwrap(),
        bias: found[1].unwrap(),
        curve: found[2].unwrap(),
        output: found[3].unwrap(),
        mix: found[4].unwrap(),
        mix_law: found[5].unwrap(),
        color_on: found[6].unwrap(),
        color_base: found[7].unwrap(),
        color_freq: found[8].unwrap(),
        color_q: found[9].unwrap(),
        color_depth: found[10].unwrap(),
        dc_block: found[11].unwrap(),
        clip_mode: found[12].unwrap(),
        clip_knee: found[13].unwrap(),
        oversample: found[14].unwrap(),
        src_kind: found[15],
        src_level: found[16],
        src_freq: found[17],
    }
}

/// Resolve the parameter indices from a bridge's answers to "where is this
/// id?", asked for each of [`PARAM_IDS`] in order. Works for the plug-in's
/// mirror, which has no source parameters, as well as the standalone.
///
/// `None` when any of the fifteen parameters every bridge has is missing,
/// which means the bridge was built from some other description.
pub fn param_index_from(found: &[Option<usize>]) -> (ix: Option<ParamIx>)
    requires
        found@.len() == PARAM_IDS@.len(),
    ensures
        ix is Some <==> all_required_found(found@),
        ix matches Some(p) ==> p == param_ix_of(found@),
{
    let mut i: usize = 0;
    while i < REQUIRED_PARAMS
        invariant
            found@.len() == 18,
            i <= REQUIRED_PARAMS,
            forall|j: int| 0 <= j < i ==> (#[trigger] found@[j]) is Some,
        decreases REQUIRED_PARAMS - i,
    {
        if found[i].is_none() {
            assert(!all_required_found(found@));
            return None;
        }
        i = i + 1;
    }
    let ix = ParamIx {
        drive: found[0].unwrap(),
        bias: found[1].unwrap(),
        curve: found[2].unwrap(),
        output: found[3].unwrap(),
        mix: found[4].unwrap(),
        mix_law: found[5].unwrap(),
        color_on: found[6].unwrap(),
        color_base: found[7].unwrap(),
        color_freq: found[8].unwrap(),
        color_q: found[9].unwrap(),
        color_depth: found[10].unwrap(),
        dc_block: found[11].unwrap(),
        clip_mode: found[12].unwrap(),
        clip_knee: found[13].unwrap(),
        oversample: found[14].unwrap(),
        src_kind: found[15],
        src_level: found[16],
        src_freq: found[17],
    };
    Some(ix)
}


/// **Each resolved index is the lookup made for its own id**: the field
/// named after `PARAM_IDS[k]` is `found[k]`, for every one of the eighteen
/// ids, so no control is wired to another's parameter.
pub proof fn lemma_each_index_is_its_own_ids_lookup(found: Seq<Option<usize>>)
    ensures
        PARAM_IDS@[0]@ == "drive"@ && param_ix_of(found).drive == found[0].unwrap(),
        PARAM_IDS@[1]@ == "bias"@ && param_ix_of(found).bias == found[1].unwrap(),
        PARAM_IDS@[2]@ == "curve"@ && param_ix_of(found).curve == found[2].unwrap(),
        PARAM_IDS@[3]@ == "output"@ && param_ix_of(found).output == found[3].unwrap(),
        PARAM_IDS@[4]@ == "mix"@ && param_ix_of(found).mix == found[4].unwrap(),
        PARAM_IDS@[5]@ == "mix_law"@ && param_ix_of(found).mix_law == found[5].unwrap(),
        PARAM_IDS@[6]@ == "color_on"@ && param_ix_of(found).color_on == found[6].unwrap(),
        PARAM_IDS@[7]@ == "color_base"@ && param_ix_of(found).color_base == found[7].unwrap(),
        PARAM_IDS@[8]@ == "color_freq"@ && param_ix_of(found).color_freq == found[8].unwrap(),
        PARAM_IDS@[9]@ == "color_q"@ && param_ix_of(found).color_q == found[9].unwrap(),
        PARAM_IDS@[10]@ == "color_depth"@ && param_ix_of(found).color_depth == found[10].unwrap(),
        PARAM_IDS@[11]@ == "dc_block"@ && param_ix_of(found).dc_block == found[11].unwrap(),
        PARAM_IDS@[12]@ == "clip_mode"@ && param_ix_of(found).clip_mode == found[12].unwrap(),
        PARAM_IDS@[13]@ == "clip_knee"@ && param_ix_of(found).clip_knee == found[13].unwrap(),
        PARAM_IDS@[14]@ == "oversample"@ && param_ix_of(found).oversample == found[14].unwrap(),
        PARAM_IDS@[15]@ == "src_kind"@ && param_ix_of(found).src_kind == found[15],
        PARAM_IDS@[16]@ == "src_level"@ && param_ix_of(found).src_level == found[16],
        PARAM_IDS@[17]@ == "src_freq"@ && param_ix_of(found).src_freq == found[17],
{
}

// ---------------------------------------------------------------------------
// What the streams and the parameters are, as plain values
// ---------------------------------------------------------------------------

/// How the page draws a stream.
#[derive(Clone, Copy, PartialEq, Eq, Debug, Structural)]
pub enum StreamKind {
    Meter,
    Raw,
    Curve,
    Spectrum,
}

/// One stream's declaration: its id, its panel name, how it is drawn, how
/// many values a frame holds, and whether the page keeps the last frame.
#[derive(Clone, Copy, Debug)]
pub struct StreamEntry {
    pub id: &'static str,
    pub name: &'static str,
    pub kind: StreamKind,
    pub len: usize,
    pub sticky: bool,
}

/// The stream declared at position `i`.
pub open spec fn stream_entry_spec(i: int) -> StreamEntry {
    if i == 0 {
        StreamEntry { id: "meter", name: "Meter", kind: StreamKind::Meter, len: METER_LEN, sticky: false }
    } else if i == 1 {
        StreamEntry { id: "alias", name: "Aliasing", kind: StreamKind::Raw, len: ALIAS_LEN, sticky: false }
    } else if i == 2 {
        StreamEntry { id: "transfer", name: "Transfer curve", kind: StreamKind::Curve, len: TRANSFER_POINTS, sticky: true }
    } else if i == 3 {
        StreamEntry { id: "color", name: "Colour curve", kind: StreamKind::Curve, len: COLOR_POINTS, sticky: true }
    } else if i == 4 {
        StreamEntry { id: "latency", name: "Dry/wet alignment", kind: StreamKind::Raw, len: LATENCY_LEN, sticky: true }
    } else if i == 5 {
        StreamEntry { id: "spec_in", name: "Input spectrum", kind: StreamKind::Spectrum, len: SPECTRUM_BINS, sticky: false }
    } else {
        StreamEntry { id: "spec_out", name: "Output spectrum", kind: StreamKind::Spectrum, len: SPECTRUM_BINS, sticky: false }
    }
}

/// The stream declared at position `i`, for `i` below [`STREAM_COUNT`].
pub fn stream_entry(i: usize) -> (e: StreamEntry)
    requires
        i < STREAM_COUNT,
    ensures
        e == stream_entry_spec(i as int),
{
    match i {
        0 => StreamEntry { id: "meter", name: "Meter", kind: StreamKind::Meter, len: METER_LEN, sticky: false },
        1 => StreamEntry { id: "alias", name: "Aliasing", kind: StreamKind::Raw, len: ALIAS_LEN, sticky: false },
        2 => StreamEntry { id: "transfer", name: "Transfer curve", kind: StreamKind::Curve, len: TRANSFER_POINTS, sticky: true },
        3 => StreamEntry { id: "color", name: "Colour curve", kind: StreamKind::Curve, len: COLOR_POINTS, sticky: true },
        4 => StreamEntry { id: "latency", name: "Dry/wet alignment", kind: StreamKind::Raw, len: LATENCY_LEN, sticky: true },
        5 => StreamEntry { id: "spec_in", name: "Input spectrum", kind: StreamKind::Spectrum, len: SPECTRUM_BINS, sticky: false },
        _ => StreamEntry { id: "spec_out", name: "Output spectrum", kind: StreamKind::Spectrum, len: SPECTRUM_BINS, sticky: false },
    }
}

/// Every stream, in declaration order.
pub fn stream_table() -> (t: Vec<StreamEntry>)
    ensures
        t@.len() == STREAM_COUNT,
        forall|i: int| 0 <= i < STREAM_COUNT ==> #[trigger] t@[i] == stream_entry_spec(i),
{
    let mut t: Vec<StreamEntry> = Vec::new();
    let mut i: usize = 0;
    while i < STREAM_COUNT
        invariant
            i <= STREAM_COUNT,
            t@.len() == i,
            forall|j: int| 0 <= j < i ==> #[trigger] t@[j] == stream_entry_spec(j),
        decreases STREAM_COUNT - i,
    {
        t.push(stream_entry(i));
        i = i + 1;
    }
    t
}

/// **The stream table is the layout the page expects**: each stream sits at
/// the index [`stream_ix`] gives it, under the id [`STREAM_IDS`] gives it,
/// with the frame length its layout states; the three sticky streams are the
/// transfer curve, the colour curve and the alignment frame.
pub proof fn lemma_stream_table_is_the_layout(i: int)
    requires
        0 <= i < STREAM_COUNT,
    ensures
        stream_entry_spec(i).id@ == STREAM_IDS@[i]@,
        stream_entry_spec(stream_layout().meter as int).len == METER_LEN,
        stream_entry_spec(stream_layout().alias as int).len == ALIAS_LEN,
        stream_entry_spec(stream_layout().transfer as int).len == TRANSFER_POINTS,
        stream_entry_spec(stream_layout().transfer as int).len == 256,
        stream_entry_spec(stream_layout().color as int).len == COLOR_POINTS,
        stream_entry_spec(stream_layout().latency as int).len == LATENCY_LEN,
        stream_entry_spec(stream_layout().spec_in as int).len == SPECTRUM_BINS,
        stream_entry_spec(stream_layout().spec_out as int).len == SPECTRUM_BINS,
        stream_entry_spec(i).sticky <==> (i == stream_layout().transfer || i == stream_layout().color
            || i == stream_layout().latency),
{
}

/// Which menu a labelled parameter offers.
#[derive(Clone, Copy, PartialEq, Eq, Debug, Structural)]
pub enum LabelSet {
    Curves,
    MixLaws,
    ClipModes,
    Factors,
    Sources,
}

/// What kind of control a parameter is. The ranges and defaults of the
/// continuous ones are floating point and are set where the parameters are
/// built.
#[derive(Clone, Copy, PartialEq, Eq, Debug, Structural)]
pub enum ParamControl {
    Range,
    LogRange,
    Labels(LabelSet),
    Toggle,
}

/// One parameter's declaration: its id, its panel name, its group, its
/// unit, what kind of control it is, and whether the host may automate it.
#[derive(Clone, Copy, Debug)]
pub struct ParamEntry {
    pub id: &'static str,
    pub name: &'static str,
    pub group: &'static str,
    pub unit: &'static str,
    pub control: ParamControl,
    pub automatable: bool,
}

/// The parameter declared at position `i`.
pub open spec fn param_entry_spec(i: int) -> ParamEntry {
    if i == 0 {
        ParamEntry { id: "drive", name: "Drive", group: "shape", unit: "dB", control: ParamControl::Range, automatable: true }
    } else if i == 1 {
        ParamEntry { id: "bias", name: "Bias", group: "shape", unit: "%", control: ParamControl::Range, automatable: true }
    } else if i == 2 {
        ParamEntry { id: "curve", name: "Curve", group: "shape", unit: "", control: ParamControl::Labels(LabelSet::Curves), automatable: true }
    } else if i == 3 {
        ParamEntry { id: "output", name: "Output", group: "output", unit: "dB", control: ParamControl::Range, automatable: true }
    } else if i == 4 {
        ParamEntry { id: "mix", name: "Dry/Wet", group: "output", unit: "%", control: ParamControl::Range, automatable: true }
    } else if i == 5 {
        ParamEntry { id: "mix_law", name: "Mix Law", group: "output", unit: "", control: ParamControl::Labels(LabelSet::MixLaws), automatable: true }
    } else if i == 6 {
        ParamEntry { id: "color_on", name: "Colour", group: "colour", unit: "", control: ParamControl::Toggle, automatable: true }
    } else if i == 7 {
        ParamEntry { id: "color_base", name: "Colour Base", group: "colour", unit: "dB", control: ParamControl::Range, automatable: true }
    } else if i == 8 {
        ParamEntry { id: "color_freq", name: "Colour Freq", group: "colour", unit: "Hz", control: ParamControl::LogRange, automatable: true }
    } else if i == 9 {
        ParamEntry { id: "color_q", name: "Colour Width", group: "colour", unit: "Q", control: ParamControl::LogRange, automatable: true }
    } else if i == 10 {
        ParamEntry { id: "color_depth", name: "Colour Depth", group: "colour", unit: "dB", control: ParamControl::Range, automatable: true }
    } else if i == 11 {
        ParamEntry { id: "dc_block", name: "Pre DC Filter", group: "shape", unit: "", control: ParamControl::Toggle, automatable: true }
    } else if i == 12 {
        ParamEntry { id: "clip_mode", name: "Post Clip", group: "output", unit: "", control: ParamControl::Labels(LabelSet::ClipModes), automatable: true }
    } else if i == 13 {
        ParamEntry { id: "clip_knee", name: "Clip Knee", group: "output", unit: "dB", control: ParamControl::Range, automatable: true }
    } else if i == 14 {
        ParamEntry { id: "oversample", name: "Oversample", group: "quality", unit: "", control: ParamControl::Labels(LabelSet::Factors), automatable: true }
    } else if i == 15 {
        ParamEntry { id: "src_kind", name: "Source", group: "source", unit: "", control: ParamControl::Labels(LabelSet::Sources), automatable: false }
    } else if i == 16 {
        ParamEntry { id: "src_level", name: "Source Level", group: "source", unit: "", control: ParamControl::Range, automatable: false }
    } else {
        ParamEntry { id: "src_freq", name: "Source Freq", group: "source", unit: "Hz", control: ParamControl::LogRange, automatable: false }
    }
}

/// The parameter declared at position `i`, for `i` below the length of
/// [`PARAM_IDS`].
pub fn param_entry(i: usize) -> (e: ParamEntry)
    requires
        i < PARAM_IDS@.len(),
    ensures
        e == param_entry_spec(i as int),
{
    match i {
        0 => ParamEntry { id: "drive", name: "Drive", group: "shape", unit: "dB", control: ParamControl::Range, automatable: true },
        1 => ParamEntry { id: "bias", name: "Bias", group: "shape", unit: "%", control: ParamControl::Range, automatable: true },
        2 => ParamEntry { id: "curve", name: "Curve", group: "shape", unit: "", control: ParamControl::Labels(LabelSet::Curves), automatable: true },
        3 => ParamEntry { id: "output", name: "Output", group: "output", unit: "dB", control: ParamControl::Range, automatable: true },
        4 => ParamEntry { id: "mix", name: "Dry/Wet", group: "output", unit: "%", control: ParamControl::Range, automatable: true },
        5 => ParamEntry { id: "mix_law", name: "Mix Law", group: "output", unit: "", control: ParamControl::Labels(LabelSet::MixLaws), automatable: true },
        6 => ParamEntry { id: "color_on", name: "Colour", group: "colour", unit: "", control: ParamControl::Toggle, automatable: true },
        7 => ParamEntry { id: "color_base", name: "Colour Base", group: "colour", unit: "dB", control: ParamControl::Range, automatable: true },
        8 => ParamEntry { id: "color_freq", name: "Colour Freq", group: "colour", unit: "Hz", control: ParamControl::LogRange, automatable: true },
        9 => ParamEntry { id: "color_q", name: "Colour Width", group: "colour", unit: "Q", control: ParamControl::LogRange, automatable: true },
        10 => ParamEntry { id: "color_depth", name: "Colour Depth", group: "colour", unit: "dB", control: ParamControl::Range, automatable: true },
        11 => ParamEntry { id: "dc_block", name: "Pre DC Filter", group: "shape", unit: "", control: ParamControl::Toggle, automatable: true },
        12 => ParamEntry { id: "clip_mode", name: "Post Clip", group: "output", unit: "", control: ParamControl::Labels(LabelSet::ClipModes), automatable: true },
        13 => ParamEntry { id: "clip_knee", name: "Clip Knee", group: "output", unit: "dB", control: ParamControl::Range, automatable: true },
        14 => ParamEntry { id: "oversample", name: "Oversample", group: "quality", unit: "", control: ParamControl::Labels(LabelSet::Factors), automatable: true },
        15 => ParamEntry { id: "src_kind", name: "Source", group: "source", unit: "", control: ParamControl::Labels(LabelSet::Sources), automatable: false },
        16 => ParamEntry { id: "src_level", name: "Source Level", group: "source", unit: "", control: ParamControl::Range, automatable: false },
        _ => ParamEntry { id: "src_freq", name: "Source Freq", group: "source", unit: "Hz", control: ParamControl::LogRange, automatable: false },
    }
}

/// Every parameter, in [`PARAM_IDS`] order: the device's own fifteen, and
/// the demo source's three after them when `with_source` is set.
pub fn param_table(with_source: bool) -> (t: Vec<ParamEntry>)
    ensures
        t@.len() == if with_source { PARAM_IDS@.len() } else { REQUIRED_PARAMS as nat },
        forall|i: int| 0 <= i < t@.len() ==> #[trigger] t@[i] == param_entry_spec(i),
{
    let n = if with_source { PARAM_IDS.len() } else { REQUIRED_PARAMS };
    let mut t: Vec<ParamEntry> = Vec::new();
    let mut i: usize = 0;
    while i < n
        invariant
            n <= PARAM_IDS@.len(),
            n == if with_source { PARAM_IDS@.len() } else { REQUIRED_PARAMS as nat },
            i <= n,
            t@.len() == i,
            forall|j: int| 0 <= j < i ==> #[trigger] t@[j] == param_entry_spec(j),
        decreases n - i,
    {
        t.push(param_entry(i));
        i = i + 1;
    }
    t
}

/// **The parameter table is the id list**: each entry's id is the one
/// [`PARAM_IDS`] gives its position, so the indices [`param_index_from`]
/// resolves are the positions the table declares; the device's own fifteen
/// are automatable and the demo source's three are not.
pub proof fn lemma_param_table_is_the_id_list(i: int)
    requires
        0 <= i < PARAM_IDS@.len(),
    ensures
        param_entry_spec(i).id@ == PARAM_IDS@[i]@,
        param_entry_spec(i).automatable <==> i < REQUIRED_PARAMS,
{
}

/// **Each stream is drawn the way its layout says**: the meter as a meter,
/// the aliasing and alignment frames raw, the transfer and colour curves as
/// curves, and both spectra as spectra.
pub proof fn lemma_each_stream_has_its_own_kind()
    ensures
        stream_entry_spec(stream_layout().meter as int).kind == StreamKind::Meter,
        stream_entry_spec(stream_layout().alias as int).kind == StreamKind::Raw,
        stream_entry_spec(stream_layout().transfer as int).kind == StreamKind::Curve,
        stream_entry_spec(stream_layout().color as int).kind == StreamKind::Curve,
        stream_entry_spec(stream_layout().latency as int).kind == StreamKind::Raw,
        stream_entry_spec(stream_layout().spec_in as int).kind == StreamKind::Spectrum,
        stream_entry_spec(stream_layout().spec_out as int).kind == StreamKind::Spectrum,
{
}

/// **Each labelled parameter offers its own menu, and only those five are
/// menus**: the curve offers the curves, the mix law the mix laws, the post
/// clip the clip modes, the oversampling the factors and the demo source the
/// sources. The two toggles are the colour switch and the DC filter; the
/// frequencies and the bell's width run on a log scale; everything else is
/// a plain range.
pub proof fn lemma_each_parameter_has_its_own_control(i: int)
    requires
        0 <= i < PARAM_IDS@.len(),
    ensures
        PARAM_IDS@[2]@ == "curve"@ && param_entry_spec(2).control == ParamControl::Labels(LabelSet::Curves),
        PARAM_IDS@[5]@ == "mix_law"@ && param_entry_spec(5).control == ParamControl::Labels(LabelSet::MixLaws),
        PARAM_IDS@[12]@ == "clip_mode"@ && param_entry_spec(12).control == ParamControl::Labels(
            LabelSet::ClipModes,
        ),
        PARAM_IDS@[14]@ == "oversample"@ && param_entry_spec(14).control == ParamControl::Labels(
            LabelSet::Factors,
        ),
        PARAM_IDS@[15]@ == "src_kind"@ && param_entry_spec(15).control == ParamControl::Labels(
            LabelSet::Sources,
        ),
        param_entry_spec(i).control is Labels <==> (i == 2 || i == 5 || i == 12 || i == 14 || i == 15),
        param_entry_spec(i).control == ParamControl::Toggle <==> (i == 6 || i == 11),
        PARAM_IDS@[6]@ == "color_on"@ && PARAM_IDS@[11]@ == "dc_block"@,
        param_entry_spec(i).control == ParamControl::LogRange <==> (i == 8 || i == 9 || i == 17),
        PARAM_IDS@[8]@ == "color_freq"@ && PARAM_IDS@[9]@ == "color_q"@ && PARAM_IDS@[17]@ == "src_freq"@,
{
}

/// **Each parameter carries the unit its values are in**: decibels for the
/// gains, the trim, the colour's base and depth and the clip knee; percent
/// for the bias and the mix; hertz for the two frequencies; Q for the bell's
/// width; none for the menus, the toggles and the source level. The demo
/// source's three sit in their own group, and nothing else does.
pub proof fn lemma_each_parameter_has_its_own_unit(i: int)
    requires
        0 <= i < PARAM_IDS@.len(),
    ensures
        param_entry_spec(i).unit@ == "dB"@ <==> (i == 0 || i == 3 || i == 7 || i == 10 || i == 13),
        param_entry_spec(i).unit@ == "%"@ <==> (i == 1 || i == 4),
        param_entry_spec(i).unit@ == "Hz"@ <==> (i == 8 || i == 17),
        param_entry_spec(i).unit@ == "Q"@ <==> i == 9,
        param_entry_spec(i).unit@.len() == 0 <==> (i == 2 || i == 5 || i == 6 || i == 11 || i == 12
            || i == 14 || i == 15 || i == 16),
        param_entry_spec(i).group@ == "source"@ <==> i >= REQUIRED_PARAMS,
{
    reveal_strlit("dB");
    reveal_strlit("%");
    reveal_strlit("Hz");
    reveal_strlit("Q");
    reveal_strlit("");
    reveal_strlit("source");
    reveal_strlit("shape");
    reveal_strlit("output");
    reveal_strlit("colour");
    reveal_strlit("quality");
    assert("dB"@ != "Hz"@) by {
        assert("dB"@[0] != "Hz"@[0]);
    }
    assert("%"@ != "Q"@) by {
        assert("%"@[0] != "Q"@[0]);
    }
    assert("dB"@.len() == 2 && "Hz"@.len() == 2 && "%"@.len() == 1 && "Q"@.len() == 1
        && ""@.len() == 0);
    assert("dB"@.len() != "%"@.len() && "dB"@.len() != "Q"@.len() && "dB"@.len() != ""@.len());
    assert("Hz"@.len() != "%"@.len() && "Hz"@.len() != "Q"@.len() && "Hz"@.len() != ""@.len());
    assert("%"@.len() != ""@.len() && "Q"@.len() != ""@.len());
    assert("source"@.len() == 6 && "shape"@.len() == 5 && "output"@.len() == 6
        && "colour"@.len() == 6 && "quality"@.len() == 7);
    assert("source"@ != "output"@) by {
        assert("source"@[0] != "output"@[0]);
    }
    assert("source"@ != "colour"@) by {
        assert("source"@[0] != "colour"@[0]);
    }
    assert("source"@.len() != "shape"@.len() && "source"@.len() != "quality"@.len());
}

/// **Exactly the device's own fifteen parameters are required**: the
/// indices resolve when every one of the first fifteen ids was found,
/// whatever became of the demo source's three, and not otherwise.
pub proof fn lemma_the_first_fifteen_are_required(found: Seq<Option<usize>>)
    requires
        found.len() == PARAM_IDS@.len(),
    ensures
        REQUIRED_PARAMS == 15,
        all_required_found(found) <==> forall|k: int| 0 <= k < 15 ==> #[trigger] found[k] is Some,
        all_required_found(found) ==> all_required_found(
            found.update(15, None).update(16, None).update(17, None),
        ),
{
    let g = found.update(15, None).update(16, None).update(17, None);
    if all_required_found(found) {
        assert forall|k: int| 0 <= k < REQUIRED_PARAMS implies (#[trigger] g[k]) is Some by {
            assert(found[k] is Some);
            assert(g[k] == found[k]);
        }
    }
}

/// **Each stream and each parameter carries its own panel name.**
pub proof fn lemma_every_entry_has_its_own_name()
    ensures
        stream_entry_spec(stream_layout().meter as int).name@ == "Meter"@,
        stream_entry_spec(stream_layout().alias as int).name@ == "Aliasing"@,
        stream_entry_spec(stream_layout().transfer as int).name@ == "Transfer curve"@,
        stream_entry_spec(stream_layout().color as int).name@ == "Colour curve"@,
        stream_entry_spec(stream_layout().latency as int).name@ == "Dry/wet alignment"@,
        stream_entry_spec(stream_layout().spec_in as int).name@ == "Input spectrum"@,
        stream_entry_spec(stream_layout().spec_out as int).name@ == "Output spectrum"@,
        PARAM_IDS@[0]@ == "drive"@ && param_entry_spec(0).name@ == "Drive"@,
        PARAM_IDS@[1]@ == "bias"@ && param_entry_spec(1).name@ == "Bias"@,
        PARAM_IDS@[2]@ == "curve"@ && param_entry_spec(2).name@ == "Curve"@,
        PARAM_IDS@[3]@ == "output"@ && param_entry_spec(3).name@ == "Output"@,
        PARAM_IDS@[4]@ == "mix"@ && param_entry_spec(4).name@ == "Dry/Wet"@,
        PARAM_IDS@[5]@ == "mix_law"@ && param_entry_spec(5).name@ == "Mix Law"@,
        PARAM_IDS@[6]@ == "color_on"@ && param_entry_spec(6).name@ == "Colour"@,
        PARAM_IDS@[7]@ == "color_base"@ && param_entry_spec(7).name@ == "Colour Base"@,
        PARAM_IDS@[8]@ == "color_freq"@ && param_entry_spec(8).name@ == "Colour Freq"@,
        PARAM_IDS@[9]@ == "color_q"@ && param_entry_spec(9).name@ == "Colour Width"@,
        PARAM_IDS@[10]@ == "color_depth"@ && param_entry_spec(10).name@ == "Colour Depth"@,
        PARAM_IDS@[11]@ == "dc_block"@ && param_entry_spec(11).name@ == "Pre DC Filter"@,
        PARAM_IDS@[12]@ == "clip_mode"@ && param_entry_spec(12).name@ == "Post Clip"@,
        PARAM_IDS@[13]@ == "clip_knee"@ && param_entry_spec(13).name@ == "Clip Knee"@,
        PARAM_IDS@[14]@ == "oversample"@ && param_entry_spec(14).name@ == "Oversample"@,
        PARAM_IDS@[15]@ == "src_kind"@ && param_entry_spec(15).name@ == "Source"@,
        PARAM_IDS@[16]@ == "src_level"@ && param_entry_spec(16).name@ == "Source Level"@,
        PARAM_IDS@[17]@ == "src_freq"@ && param_entry_spec(17).name@ == "Source Freq"@,
{
}

} // verus!
