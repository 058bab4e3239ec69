//! Oversampling: the half-band cascade's depth and latency, the histories
//! its polyphase branches read, and the matched delay that keeps the dry
//! path aligned with it.
//!
//! ## Why 129 taps
//!
//! A stage's filter delays `(N−1)/2` samples at its own rate, so a stage
//! running at `2^k` times the base rate costs `(N−1)/2^k` base samples for
//! the round trip. With `N − 1 = 128`, a multiple of 16, every cascade up
//! to sixteen times lands on a whole number of base-rate samples. If it did
//! not, no integer delay could match the dry path and no honest latency
//! could be reported to the host. [`lemma_every_round_trip_is_whole`] is
//! that argument, proved.
//!
//! | depth | factor | round trip, base samples |
//! |---|---|---|
//! | 1 | 2x | 64 |
//! | 2 | 4x | 96 |
//! | 3 | 8x | 112 |
//! | 4 | 16x | 120 |
//!
//! ## The delay lines
//!
//! [`Line`] is one polyphase branch's history, stored twice over so that the
//! window a dot product runs across is always one contiguous slice, oldest
//! first. [`DryDelay`] is the whole-sample delay on the dry path, exactly as
//! long as the cascade's round trip: one store, one load and a wrapping
//! index, with no arithmetic on the signal at all, so 0 % wet is bit-exact
//! bypass. Both are generic over the sample type, because neither does
//! anything to a sample but move it.

use vstd::prelude::*;
use vstd::slice::slice_subrange;

verus! {

/// Filter length. Odd, and `TAPS − 1` a multiple of 16, so that a cascade
/// four deep still delays a whole number of base-rate samples.
pub const TAPS: usize = 129;
/// Taps in one polyphase branch: the odd-offset coefficients.
pub const HALF: usize = (TAPS - 1) / 2;
/// The centre tap's index.
pub const CENTRE: usize = HALF;
/// Where the centre branch reads in a branch history of [`HALF`] samples.
/// The centre tap sits `HALF` samples back at the stage's fast rate, which
/// is `HALF/2` samples of a branch, and the history runs oldest first.
pub const CENTRE_READ: usize = HALF - 1 - HALF / 2;
/// Deepest cascade, i.e. sixteen times.
pub const MAX_DEPTH: usize = 4;
/// Largest factor, for stack buffers.
pub const MAX_FACTOR: usize = 16;
/// The longest round trip any factor produces, in base-rate samples.
pub const MAX_LATENCY: usize = (TAPS - 1) - (TAPS - 1) / MAX_FACTOR;

/// The oversampling factors the plug-in offers, in parameter order.
pub const FACTOR_NAMES: [&'static str; 4] = ["2x", "4x", "8x", "16x"];

/// The constants above are the ones their definitions name.
pub proof fn lemma_layout_constants()
    ensures
        HALF == (TAPS - 1) / 2,
        CENTRE == HALF,
        CENTRE_READ == HALF - 1 - HALF / 2,
        MAX_FACTOR == factor_of(MAX_DEPTH as nat),
        MAX_LATENCY == round_trip(MAX_DEPTH as nat),
        MAX_LATENCY == (TAPS - 1) as nat - ((TAPS - 1) as nat) / factor_of(MAX_DEPTH as nat),
{
    lemma_factors();
    lemma_round_trips();
}

/// The oversampling factor of a cascade `depth` stages deep, `2^depth`.
pub open spec fn factor_of(depth: nat) -> nat
    decreases depth,
{
    if depth == 0 {
        1
    } else {
        2 * factor_of((depth - 1) as nat)
    }
}

/// A depth held to the cascade's range, one to [`MAX_DEPTH`].
pub open spec fn clamp_depth(depth: int) -> nat {
    if depth < 1 {
        1
    } else if depth > MAX_DEPTH {
        MAX_DEPTH as nat
    } else {
        depth as nat
    }
}

/// What stage `k` of the cascade costs the round trip, in base-rate
/// samples: its filter's `(TAPS − 1)/2` samples at `2^(k−1)` times the base
/// rate, there and back, which is `(TAPS − 1)/2^k`.
pub open spec fn stage_delay(k: nat) -> nat {
    ((TAPS - 1) as nat) / factor_of(k)
}

/// The round trip through a cascade `depth` stages deep, in base-rate
/// samples: the sum of its stages' delays.
pub open spec fn round_trip(depth: nat) -> nat
    decreases depth,
{
    if depth == 0 {
        0
    } else {
        round_trip((depth - 1) as nat) + stage_delay(depth)
    }
}

proof fn lemma_factors()
    ensures
        factor_of(0) == 1,
        factor_of(1) == 2,
        factor_of(2) == 4,
        factor_of(3) == 8,
        factor_of(4) == 16,
{
    reveal_with_fuel(factor_of, 5);
}

/// The stage delays and round trips, depth by depth.
pub proof fn lemma_round_trips()
    ensures
        stage_delay(1) == 64,
        stage_delay(2) == 32,
        stage_delay(3) == 16,
        stage_delay(4) == 8,
        round_trip(0) == 0,
        round_trip(1) == 64,
        round_trip(2) == 96,
        round_trip(3) == 112,
        round_trip(4) == 120,
{
    lemma_factors();
    assert(round_trip(0) == 0);
    assert(round_trip(1) == round_trip(0) + stage_delay(1));
    assert(round_trip(2) == round_trip(1) + stage_delay(2));
    assert(round_trip(3) == round_trip(2) + stage_delay(3));
    assert(round_trip(4) == round_trip(3) + stage_delay(4));
}

/// `(TAPS − 1) >> k` is the stage delay, for every stage of the cascade.
proof fn lemma_shift_is_stage_delay(k: usize)
    requires
        1 <= k <= MAX_DEPTH,
    ensures
        ((TAPS - 1) as usize >> k) as nat == stage_delay(k as nat),
        (1usize << k) as nat == factor_of(k as nat),
{
    lemma_factors();
    lemma_round_trips();
    if k == 1 {
        assert((128usize >> k) == 64usize && (1usize << k) == 2usize) by (bit_vector)
            requires
                k == 1usize,
        ;
    } else if k == 2 {
        assert((128usize >> k) == 32usize && (1usize << k) == 4usize) by (bit_vector)
            requires
                k == 2usize,
        ;
    } else if k == 3 {
        assert((128usize >> k) == 16usize && (1usize << k) == 8usize) by (bit_vector)
            requires
                k == 3usize,
        ;
    } else {
        assert((128usize >> k) == 8usize && (1usize << k) == 16usize) by (bit_vector)
            requires
                k == 4usize,
        ;
    }
}

/// Cascade depth for a parameter index, i.e. 2x, 4x, 8x, 16x.
pub fn depth_for_index(i: usize) -> (depth: usize)
    ensures
        depth == clamp_depth(i + 1),
{
    if i >= MAX_DEPTH {
        MAX_DEPTH
    } else {
        i + 1
    }
}

/// **Each menu entry selects its own factor and latency**: index 0 is two
/// times with 64 samples of latency, 1 four times with 96, 2 eight times
/// with 112 and 3 sixteen times with 120, as [`FACTOR_NAMES`] labels them;
/// an index past the menu is held to sixteen times; and a depth outside the
/// cascade is held to its nearest end.
pub proof fn lemma_each_factor_index_has_its_own_latency(i: int)
    requires
        i >= 0,
    ensures
        i == 0 ==> factor_of(clamp_depth(i + 1)) == 2 && round_trip(clamp_depth(i + 1)) == 64,
        i == 1 ==> factor_of(clamp_depth(i + 1)) == 4 && round_trip(clamp_depth(i + 1)) == 96,
        i == 2 ==> factor_of(clamp_depth(i + 1)) == 8 && round_trip(clamp_depth(i + 1)) == 112,
        i >= 3 ==> factor_of(clamp_depth(i + 1)) == 16 && round_trip(clamp_depth(i + 1)) == 120,
        FACTOR_NAMES@[0]@ == "2x"@ && FACTOR_NAMES@[1]@ == "4x"@ && FACTOR_NAMES@[2]@ == "8x"@
            && FACTOR_NAMES@[3]@ == "16x"@,
        clamp_depth(-i) == 1,
        clamp_depth(MAX_DEPTH + 1 + i) == 4,
{
    lemma_factors();
    lemma_round_trips();
}

/// Round-trip latency in base-rate samples for a cascade `depth` deep,
/// with the depth held to the cascade's range first.
pub fn latency_for_depth(depth: usize) -> (latency: usize)
    ensures
        latency == round_trip(clamp_depth(depth as int)),
        latency <= MAX_LATENCY,
{
    let d = if depth < 1 {
        1
    } else if depth > MAX_DEPTH {
        MAX_DEPTH
    } else {
        depth
    };
    proof {
        lemma_round_trip_grows(d as nat, MAX_DEPTH as nat);
        lemma_layout_constants();
    }
    let mut sum: usize = 0;
    let mut k: usize = 1;
    while k <= d
        invariant
            1 <= d <= MAX_DEPTH,
            1 <= k <= d + 1,
            sum == round_trip((k - 1) as nat),
            round_trip(d as nat) <= MAX_LATENCY,
        decreases d + 1 - k,
    {
        proof {
            lemma_shift_is_stage_delay(k);
            lemma_round_trip_grows(k as nat, d as nat);
        }
        sum = sum + ((TAPS - 1) >> k);
        k = k + 1;
    }
    sum
}

/// A deeper cascade never costs less: the round trip grows with the depth.
pub proof fn lemma_round_trip_grows(d1: nat, d2: nat)
    requires
        d1 <= d2,
    ensures
        round_trip(d1) <= round_trip(d2),
    decreases d2,
{
    if d1 < d2 {
        lemma_round_trip_grows(d1, (d2 - 1) as nat);
    }
}

/// **Every factor's latency is a whole number of base-rate samples.** Each
/// stage of a cascade up to [`MAX_DEPTH`] deep divides `TAPS − 1` exactly,
/// so no stage's delay is rounded, and the whole round trip is
/// `TAPS − 1 − (TAPS − 1)/2^depth` base samples on the nose — which is
/// `(TAPS − 1)(2^depth − 1)` samples at the oversampled rate, divided by
/// the factor without remainder.
pub proof fn lemma_every_round_trip_is_whole(depth: nat)
    requires
        1 <= depth <= MAX_DEPTH,
    ensures
        forall|k: nat|
            1 <= k <= depth ==> #[trigger] (((TAPS - 1) as nat) % factor_of(k)) == 0,
        round_trip(depth) == (TAPS - 1) as nat - stage_delay(depth),
        round_trip(depth) * factor_of(depth) == ((TAPS - 1) as nat) * ((factor_of(depth) - 1) as nat),
{
    lemma_factors();
    lemma_round_trips();
    assert forall|k: nat| 1 <= k <= depth implies #[trigger] (((TAPS - 1) as nat) % factor_of(k))
        == 0 by {
        lemma_factors();
        if k == 1 {
        } else if k == 2 {
        } else if k == 3 {
        } else {
        }
    }
    if depth == 1 {
        assert(round_trip(depth) * factor_of(depth) == 64 * 2);
    } else if depth == 2 {
        assert(round_trip(depth) * factor_of(depth) == 96 * 4);
    } else if depth == 3 {
        assert(round_trip(depth) * factor_of(depth) == 112 * 8);
    } else {
        assert(round_trip(depth) * factor_of(depth) == 120 * 16);
    }
}

// ---------------------------------------------------------------------------
// One polyphase branch's history
// ---------------------------------------------------------------------------

/// One branch's history, stored twice over so the window is always
/// contiguous: a dot product can then run across one slice, oldest first,
/// which a wrapping ring index would prevent.
pub struct Line<T> {
    buf: Vec<T>,
    /// Where the next sample goes, in `0..HALF`.
    pos: usize,
    /// What a cleared history holds.
    silence: T,
}

impl<T> View for Line<T> {
    /// The window: the last [`HALF`] samples pushed, oldest first.
    type V = Seq<T>;

    closed spec fn view(&self) -> Seq<T> {
        self.buf@.subrange(self.pos as int, self.pos + HALF)
    }
}

impl<T: Copy> Line<T> {
    /// The buffer holds two copies of the history and the write position is
    /// inside the first.
    pub closed spec fn wf(&self) -> bool {
        &&& self.buf@.len() == 2 * HALF
        &&& self.pos < HALF
        &&& forall|i: int| 0 <= i < HALF ==> #[trigger] self.buf@[i] == self.buf@[i + HALF]
    }

    /// What a cleared history holds.
    pub closed spec fn silence(&self) -> T {
        self.silence
    }

    /// A history of [`HALF`] copies of `silence`.
    pub fn new(silence: T) -> (line: Self)
        ensures
            line.wf(),
            line@ == Seq::new(HALF as nat, |_i: int| silence),
            line.silence() == silence,
    {
        let mut buf: Vec<T> = Vec::new();
        let mut i: usize = 0;
        while i < 2 * HALF
            invariant
                i <= 2 * HALF,
                buf@.len() == i,
                forall|j: int| 0 <= j < i ==> #[trigger] buf@[j] == silence,
            decreases 2 * HALF - i,
        {
            buf.push(silence);
            i = i + 1;
        }
        let line = Line { buf, pos: 0, silence };
        assert(line@ =~= Seq::new(HALF as nat, |_i: int| silence));
        line
    }

    /// Clear the history back to silence.
    pub fn reset(&mut self)
        requires
            old(self).wf(),
        ensures
            final(self).wf(),
            final(self)@ == Seq::new(HALF as nat, |_i: int| old(self).silence()),
            final(self).silence() == old(self).silence(),
    {
        let s = self.silence;
        let mut i: usize = 0;
        while i < 2 * HALF
            invariant
                i <= 2 * HALF,
                self.buf@.len() == 2 * HALF,
                self.silence == s,
                forall|j: int| 0 <= j < i ==> #[trigger] self.buf@[j] == s,
            decreases 2 * HALF - i,
        {
            self.buf.set(i, s);
            i = i + 1;
        }
        self.pos = 0;
        assert(self@ =~= Seq::new(HALF as nat, |_i: int| s));
    }

    /// Store `x` and hand back the window ending on it, oldest first.
    pub fn push(&mut self, x: T) -> (w: &[T])
        requires
            old(self).wf(),
        ensures
            final(self).wf(),
            final(self)@ == old(self)@.drop_first().push(x),
            final(self).silence() == old(self).silence(),
            w@ == final(self)@,
    {
        let ghost before = self.buf@;
        let ghost p = self.pos as int;
        let pos = self.pos;
        self.buf.set(pos, x);
        self.buf.set(pos + HALF, x);
        let start = pos + 1;
        self.pos = if pos + 1 == HALF {
            0
        } else {
            pos + 1
        };
        proof {
            let after = self.buf@;
            assert forall|i: int| 0 <= i < HALF implies #[trigger] after[i] == after[i + HALF] by {
                if i != p {
                    assert(after[i] == before[i]);
                    assert(after[i + HALF] == before[i + HALF]);
                }
            }
            let want = before.subrange(p, p + HALF).drop_first().push(x);
            assert(after.subrange(p + 1, p + 1 + HALF) =~= want);
            if pos + 1 == HALF {
                assert(after.subrange(0, HALF as int) =~= after.subrange(HALF as int, 2 * HALF));
            }
        }
        slice_subrange(self.buf.as_slice(), start, start + HALF)
    }

    /// The window without storing anything, oldest first.
    pub fn window(&self) -> (w: &[T])
        requires
            self.wf(),
        ensures
            w@ == self@,
    {
        slice_subrange(self.buf.as_slice(), self.pos, self.pos + HALF)
    }
}

// ---------------------------------------------------------------------------
// The dry path's delay
// ---------------------------------------------------------------------------

/// `a` wrapped once into `0..m`, for `a` below `2m`.
pub open spec fn wrap_once(a: int, m: int) -> int {
    if a < m {
        a
    } else {
        a - m
    }
}

/// `len` copies of `silence`: what a delay of that length holds when it has
/// just been cleared.
pub open spec fn silence_of<T>(len: nat, silence: T) -> Seq<T> {
    Seq::new(len, |_i: int| silence)
}

/// One sample through a whole-sample delay holding `pending`, oldest
/// first: what comes out, and what the delay holds afterwards. With nothing
/// pending the sample passes straight through.
pub open spec fn delay_step<T>(pending: Seq<T>, x: T) -> (T, Seq<T>) {
    (pending.push(x)[0], pending.push(x).drop_first())
}

/// What a delay holding `pending` puts out for the inputs `xs`, one sample
/// at a time.
pub open spec fn delay_run<T>(pending: Seq<T>, xs: Seq<T>) -> Seq<T>
    decreases xs.len(),
{
    if xs.len() == 0 {
        Seq::empty()
    } else {
        seq![delay_step(pending, xs[0]).0] + delay_run(delay_step(pending, xs[0]).1, xs.drop_first())
    }
}

/// What a delay holding `pending` holds after the inputs `xs`.
pub open spec fn delay_after<T>(pending: Seq<T>, xs: Seq<T>) -> Seq<T>
    decreases xs.len(),
{
    if xs.len() == 0 {
        pending
    } else {
        delay_after(delay_step(pending, xs[0]).1, xs.drop_first())
    }
}

/// **A delay line is the input stream shifted by what it holds.** Whatever
/// a delay holds comes out first, in order, and then the input follows it
/// sample for sample; what it holds afterwards is the newest `len` samples
/// of that same stream.
pub proof fn lemma_delay_is_a_shift<T>(pending: Seq<T>, xs: Seq<T>)
    ensures
        delay_run(pending, xs) == (pending + xs).take(xs.len() as int),
        delay_after(pending, xs) == (pending + xs).skip(xs.len() as int),
    decreases xs.len(),
{
    if xs.len() > 0 {
        let next = delay_step(pending, xs[0]).1;
        lemma_delay_is_a_shift(next, xs.drop_first());
        assert(next + xs.drop_first() =~= (pending + xs).drop_first());
        assert(delay_run(pending, xs) =~= (pending + xs).take(xs.len() as int));
        assert(delay_after(pending, xs) =~= (pending + xs).skip(xs.len() as int));
    } else {
        assert(delay_run(pending, xs) =~= (pending + xs).take(xs.len() as int));
        assert(delay_after(pending, xs) =~= (pending + xs).skip(xs.len() as int));
    }
}

/// **The dry delay delays by exactly what it says.** From silence, a delay
/// `len` samples long puts out `len` samples of silence and then the input,
/// each sample exactly `len` samples late.
pub proof fn lemma_delays_by_its_length<T>(silence: T, len: nat, xs: Seq<T>)
    ensures
        delay_run(silence_of(len, silence), xs).len() == xs.len(),
        forall|i: int|
            0 <= i < xs.len() ==> #[trigger] delay_run(silence_of(len, silence), xs)[i]
                == if i < len {
                silence
            } else {
                xs[i - len]
            },
{
    let pending = silence_of(len, silence);
    lemma_delay_is_a_shift(pending, xs);
}

/// A whole-sample delay for the dry path, as long as the resampler's round
/// trip.
///
/// This is the component that makes the dry/wet control honest. It moves
/// samples and does nothing else to them, so it cannot colour the dry
/// signal and a fully dry setting is bit-exact bypass.
pub struct DryDelay<T> {
    buf: Vec<T>,
    /// Where the next sample is written, in `0..=len`.
    pos: usize,
    len: usize,
    /// What a cleared delay holds.
    silence: T,
}

impl<T> View for DryDelay<T> {
    /// What the delay holds, oldest first: the next `len` samples it will
    /// put out.
    type V = Seq<T>;

    closed spec fn view(&self) -> Seq<T> {
        Seq::new(
            self.len as nat,
            |j: int| self.buf@[wrap_once(self.pos + 1 + j, self.len + 1)],
        )
    }
}

impl<T: Copy> DryDelay<T> {
    /// The buffer is the longest delay plus one and the write position is
    /// inside the part the current length uses.
    pub closed spec fn wf(&self) -> bool {
        &&& self.buf@.len() == MAX_LATENCY + 1
        &&& self.len <= MAX_LATENCY
        &&& self.pos <= self.len
    }

    /// What a cleared delay holds.
    pub closed spec fn silence(&self) -> T {
        self.silence
    }

    /// A delay of `len` samples, which may be zero, holding silence. A
    /// length beyond [`MAX_LATENCY`] is held to it.
    pub fn new(len: usize, silence: T) -> (d: Self)
        ensures
            d.wf(),
            d@ == silence_of(if len < MAX_LATENCY { len as nat } else { MAX_LATENCY as nat }, silence),
            d.silence() == silence,
    {
        let len = if len < MAX_LATENCY {
            len
        } else {
            MAX_LATENCY
        };
        let mut buf: Vec<T> = Vec::new();
        let mut i: usize = 0;
        while i < MAX_LATENCY + 1
            invariant
                i <= MAX_LATENCY + 1,
                buf@.len() == i,
                forall|j: int| 0 <= j < i ==> #[trigger] buf@[j] == silence,
            decreases MAX_LATENCY + 1 - i,
        {
            buf.push(silence);
            i = i + 1;
        }
        let d = DryDelay { buf, pos: 0, len, silence };
        assert(d@ =~= silence_of(len as nat, silence));
        d
    }

    /// Change the delay. The buffer is cleared when the length moves,
    /// because samples held at one length come out at the wrong time at
    /// another; asking for the length it already has changes nothing.
    pub fn set_len(&mut self, len: usize)
        requires
            old(self).wf(),
        ensures
            final(self).wf(),
            final(self).silence() == old(self).silence(),
            ({
                let want: nat = if len < MAX_LATENCY { len as nat } else { MAX_LATENCY as nat };
                if want == old(self)@.len() {
                    *final(self) == *old(self)
                } else {
                    final(self)@ == silence_of(want, old(self).silence())
                }
            }),
    {
        let len = if len < MAX_LATENCY {
            len
        } else {
            MAX_LATENCY
        };
        if len != self.len {
            self.pos = 0;
            self.len = len;
            self.reset();
        }
    }

    /// The delay in samples.
    pub fn len(&self) -> (n: usize)
        requires
            self.wf(),
        ensures
            n == self@.len(),
    {
        self.len
    }

    /// Whether the delay is zero samples long, i.e. a wire.
    pub fn is_empty(&self) -> (b: bool)
        requires
            self.wf(),
        ensures
            b == (self@.len() == 0),
    {
        self.len == 0
    }

    /// Clear the delay back to silence, keeping its length.
    pub fn reset(&mut self)
        requires
            old(self).wf(),
        ensures
            final(self).wf(),
            final(self)@ == silence_of(old(self)@.len(), old(self).silence()),
            final(self).silence() == old(self).silence(),
    {
        let s = self.silence;
        let mut i: usize = 0;
        while i < MAX_LATENCY + 1
            invariant
                i <= MAX_LATENCY + 1,
                self.buf@.len() == MAX_LATENCY + 1,
                self.silence == s,
                self.len == old(self).len,
                forall|j: int| 0 <= j < i ==> #[trigger] self.buf@[j] == s,
            decreases MAX_LATENCY + 1 - i,
        {
            self.buf.set(i, s);
            i = i + 1;
        }
        self.pos = 0;
        assert(self@ =~= silence_of(self.len as nat, s));
    }

    /// Push `x` and return what went in `len` samples ago: one step of
    /// [`delay_step`].
    pub fn process(&mut self, x: T) -> (y: T)
        requires
            old(self).wf(),
        ensures
            final(self).wf(),
            final(self).silence() == old(self).silence(),
            (y, final(self)@) == delay_step(old(self)@, x),
    {
        if self.len == 0 {
            assert(old(self)@.push(x).drop_first() =~= old(self)@);
            return x;
        }
        let ghost before = self.buf@;
        let ghost q = self@;
        let ghost p = self.pos as int;
        let ghost l = self.len as int;
        self.buf.set(self.pos, x);
        self.pos = self.pos + 1;
        if self.pos > self.len {
            self.pos = 0;
        }
        let y = self.buf[self.pos];
        proof {
            let after = self.buf@;
            let np = self.pos as int;
            assert(np == wrap_once(p + 1, l + 1));
            assert(y == q[0]);
            let want = q.push(x).drop_first();
            assert forall|j: int| 0 <= j < l implies #[trigger] self@[j] == want[j] by {
                let ix = wrap_once(np + 1 + j, l + 1);
                if j < l - 1 {
                    assert(ix == wrap_once(p + 2 + j, l + 1));
                    assert(ix != p);
                    assert(after[ix] == before[ix]);
                    assert(want[j] == q[j + 1]);
                } else {
                    assert(ix == p);
                }
            }
            assert(self@ =~= want);
        }
        y
    }
}

impl<T: Copy + Default> Default for DryDelay<T> {
    /// An empty delay, which passes every sample straight through.
    fn default() -> (d: Self)
        ensures
            d.wf(),
            d@.len() == 0,
    {
        DryDelay::new(0, T::default())
    }
}

// ---------------------------------------------------------------------------
// Keeping the dry path aligned with the cascade
// ---------------------------------------------------------------------------

/// What a settings snapshot asked of the wet path, besides the dry path that
/// [`Alignment::configure`] has already moved.
#[derive(Clone, Copy, Debug)]
pub struct Retune {
    /// This was the first snapshot: the smoothed controls jump straight to
    /// their targets, and the colour section is designed for the rate.
    pub first: bool,
    /// The cascade's depth moved: the resampler is retuned and its history,
    /// and the shapers', cleared, because a cascade of a different depth is a
    /// different filter.
    pub depth_changed: bool,
}

/// The cascade's depth and the two channels' dry delays, kept together so
/// they can never drift apart: **each dry delay is always exactly as long
/// as the cascade's round trip**, which is the latency the host is told.
pub struct Alignment<T> {
    depth: usize,
    configured: bool,
    left: DryDelay<T>,
    right: DryDelay<T>,
}

impl<T: Copy> Alignment<T> {
    /// The depth is in the cascade's range and both dry delays are its
    /// round trip long.
    pub closed spec fn wf(&self) -> bool {
        &&& 1 <= self.depth <= MAX_DEPTH
        &&& self.left.wf()
        &&& self.right.wf()
        &&& self.left@.len() == round_trip(self.depth as nat)
        &&& self.right@.len() == round_trip(self.depth as nat)
        &&& self.left.silence() == self.right.silence()
    }

    /// The cascade's depth.
    pub closed spec fn depth_spec(&self) -> nat {
        self.depth as nat
    }

    /// Whether a snapshot has been taken yet.
    pub closed spec fn configured(&self) -> bool {
        self.configured
    }

    /// What the left channel's dry delay holds, oldest first.
    pub closed spec fn left(&self) -> Seq<T> {
        self.left@
    }

    /// What the right channel's dry delay holds, oldest first.
    pub closed spec fn right(&self) -> Seq<T> {
        self.right@
    }

    /// What a cleared dry delay holds.
    pub closed spec fn silence(&self) -> T {
        self.left.silence()
    }

    /// A cascade `depth` deep, held to its range, with silent dry delays of
    /// its round trip, before any snapshot.
    pub fn new(depth: usize, silence: T) -> (a: Self)
        ensures
            a.wf(),
            a.depth_spec() == clamp_depth(depth as int),
            !a.configured(),
            a.left() == silence_of(round_trip(clamp_depth(depth as int)), silence),
            a.right() == silence_of(round_trip(clamp_depth(depth as int)), silence),
            a.silence() == silence,
    {
        let d = if depth < 1 {
            1
        } else if depth > MAX_DEPTH {
            MAX_DEPTH
        } else {
            depth
        };
        let len = latency_for_depth(d);
        Alignment {
            depth: d,
            configured: false,
            left: DryDelay::new(len, silence),
            right: DryDelay::new(len, silence),
        }
    }

    /// Take a snapshot's oversampling factor, given as a menu index. On the
    /// first snapshot, or when the depth moves, both dry delays take the new
    /// round trip's length; otherwise nothing moves.
    pub fn configure(&mut self, factor_index: usize) -> (r: Retune)
        requires
            old(self).wf(),
        ensures
            final(self).wf(),
            final(self).configured(),
            final(self).depth_spec() == clamp_depth(factor_index + 1),
            final(self).silence() == old(self).silence(),
            r.first == !old(self).configured(),
            r.depth_changed == (final(self).depth_spec() != old(self).depth_spec()),
            !r.depth_changed ==> final(self).left() == old(self).left() && final(self).right()
                == old(self).right(),
            r.depth_changed ==> final(self).left() == silence_of(
                round_trip(final(self).depth_spec()),
                old(self).silence(),
            ) && final(self).right() == silence_of(
                round_trip(final(self).depth_spec()),
                old(self).silence(),
            ),
    {
        let depth = depth_for_index(factor_index);
        proof {
            lemma_round_trips();
        }
        let first = !self.configured;
        let changed = depth != self.depth;
        if first || changed {
            let len = latency_for_depth(depth);
            self.left.set_len(len);
            self.right.set_len(len);
            self.depth = depth;
        }
        self.configured = true;
        Retune { first, depth_changed: changed }
    }

    /// The cascade's depth.
    pub fn depth(&self) -> (d: usize)
        requires
            self.wf(),
        ensures
            d == self.depth_spec(),
            1 <= d <= MAX_DEPTH,
    {
        self.depth
    }

    /// The oversampling factor, `2^depth`.
    pub fn factor(&self) -> (f: usize)
        requires
            self.wf(),
        ensures
            f == factor_of(self.depth_spec()),
    {
        proof {
            lemma_shift_is_stage_delay(self.depth);
        }
        1usize << self.depth
    }

    /// The latency the host is told: the cascade's round trip.
    pub fn latency(&self) -> (l: usize)
        requires
            self.wf(),
        ensures
            l == round_trip(self.depth_spec()),
            l == self.left().len(),
            l == self.right().len(),
    {
        latency_for_depth(self.depth)
    }

    /// The two dry delays' lengths.
    pub fn dry_lengths(&self) -> (lens: (usize, usize))
        requires
            self.wf(),
        ensures
            lens.0 == self.left().len(),
            lens.1 == self.right().len(),
    {
        (self.left.len(), self.right.len())
    }

    /// Clear both dry delays back to silence.
    pub fn reset(&mut self)
        requires
            old(self).wf(),
        ensures
            final(self).wf(),
            final(self).depth_spec() == old(self).depth_spec(),
            final(self).configured() == old(self).configured(),
            final(self).silence() == old(self).silence(),
            final(self).left() == silence_of(round_trip(old(self).depth_spec()), old(self).silence()),
            final(self).right() == silence_of(round_trip(old(self).depth_spec()), old(self).silence()),
    {
        self.left.reset();
        self.right.reset();
    }

    /// One sample through channel `ch`'s dry delay (0 left, 1 right).
    pub fn process(&mut self, ch: usize, x: T) -> (y: T)
        requires
            old(self).wf(),
            ch < 2,
        ensures
            final(self).wf(),
            final(self).depth_spec() == old(self).depth_spec(),
            final(self).configured() == old(self).configured(),
            final(self).silence() == old(self).silence(),
            ch == 0 ==> (y, final(self).left()) == delay_step(old(self).left(), x),
            ch == 0 ==> final(self).right() == old(self).right(),
            ch == 1 ==> (y, final(self).right()) == delay_step(old(self).right(), x),
            ch == 1 ==> final(self).left() == old(self).left(),
    {
        if ch == 0 {
            self.left.process(x)
        } else {
            self.right.process(x)
        }
    }
}

/// **The dry delay always matches the reported latency.** Whatever has been
/// configured, both channels' dry delays are exactly the cascade's round
/// trip long, and that round trip is a whole number of base samples no
/// longer than [`MAX_LATENCY`].
pub proof fn lemma_dry_matches_latency<T: Copy>(a: Alignment<T>)
    requires
        a.wf(),
    ensures
        a.left().len() == round_trip(a.depth_spec()),
        a.right().len() == round_trip(a.depth_spec()),
        round_trip(a.depth_spec()) <= MAX_LATENCY,
        round_trip(a.depth_spec()) * factor_of(a.depth_spec()) == ((TAPS - 1) as nat) * ((factor_of(
            a.depth_spec(),
        ) - 1) as nat),
{
    lemma_round_trip_grows(a.depth_spec(), MAX_DEPTH as nat);
    lemma_layout_constants();
    lemma_every_round_trip_is_whole(a.depth_spec());
}

} // verus!
