//! The aliasing readout's fixed dimensions, and the buffer that gathers its
//! windows. The measurement itself is a windowed transform in floating point
//! and runs with the signal path.

use vstd::prelude::*;
use vstd::slice::slice_subrange;

verus! {

/// Transform length. Long enough that the bin spacing (11.7 Hz at 48 kHz)
/// resolves a low fundamental's harmonics, short enough to update visibly.
pub const WINDOW: usize = 4096;

/// Half-width of the mask placed over the fundamental and each harmonic, in
/// bins. The window's mainlobe is four bins wide, so three either side
/// covers it with a margin.
pub const MASK_BINS: usize = 3;

/// Gathers one window of input and the matching window of output from
/// blocks of any length. A block may finish a window part way through; the
/// rest of it starts the next one.
pub struct WindowFill<T> {
    inp: Vec<T>,
    out: Vec<T>,
    /// How many samples of the current window are in, in `0..=WINDOW`.
    fill: usize,
}

impl<T: Copy> WindowFill<T> {
    /// Both buffers are a window long and the fill count is inside them.
    pub closed spec fn wf(&self) -> bool {
        &&& self.inp@.len() == WINDOW
        &&& self.out@.len() == WINDOW
        &&& self.fill <= WINDOW
    }

    /// The input gathered into the current window so far, oldest first.
    pub closed spec fn inputs(&self) -> Seq<T> {
        self.inp@.take(self.fill as int)
    }

    /// The output gathered into the current window so far, oldest first.
    pub closed spec fn outputs(&self) -> Seq<T> {
        self.out@.take(self.fill as int)
    }

    /// An empty window; `silence` fills the unused part of the buffers.
    pub fn new(silence: T) -> (w: Self)
        ensures
            w.wf(),
            w.inputs().len() == 0,
            w.outputs().len() == 0,
    {
        let mut inp: Vec<T> = Vec::new();
        let mut out: Vec<T> = Vec::new();
        let mut i: usize = 0;
        while i < WINDOW
            invariant
                i <= WINDOW,
                inp@.len() == i,
                out@.len() == i,
            decreases WINDOW - i,
        {
            inp.push(silence);
            out.push(silence);
            i = i + 1;
        }
        WindowFill { inp, out, fill: 0 }
    }

    /// How many samples of the current window are in.
    pub fn len(&self) -> (n: usize)
        requires
            self.wf(),
        ensures
            n == self.inputs().len(),
            n == self.outputs().len(),
    {
        self.fill
    }

    /// Whether the current window is complete and ready to be measured.
    pub fn is_full(&self) -> (b: bool)
        requires
            self.wf(),
        ensures
            b == (self.inputs().len() == WINDOW),
    {
        self.fill == WINDOW
    }

    /// Start a new, empty window.
    pub fn restart(&mut self)
        requires
            old(self).wf(),
        ensures
            final(self).wf(),
            final(self).inputs().len() == 0,
            final(self).outputs().len() == 0,
    {
        self.fill = 0;
    }

    /// Take samples `from..` of a block, as many as the current window has
    /// room for and no further than `to`, and say where the next take
    /// starts. The window is not full when this is called: a full one is
    /// measured and restarted first.
    pub fn feed(&mut self, input: &[T], output: &[T], from: usize, to: usize) -> (next: usize)
        requires
            old(self).wf(),
            old(self).inputs().len() < WINDOW,
            from < to,
            to <= input@.len(),
            to <= output@.len(),
        ensures
            final(self).wf(),
            next == from + if WINDOW - old(self).inputs().len() < to - from {
                (WINDOW - old(self).inputs().len()) as int
            } else {
                to - from
            },
            from < next <= to,
            final(self).inputs() == old(self).inputs() + input@.subrange(from as int, next as int),
            final(self).outputs() == old(self).outputs() + output@.subrange(from as int, next as int),
    {
        let room = WINDOW - self.fill;
        let take = if room < to - from {
            room
        } else {
            to - from
        };
        let ghost ins0 = self.inputs();
        let ghost outs0 = self.outputs();
        let start = self.fill;
        let mut k: usize = 0;
        while k < take
            invariant
                self.inp@.len() == WINDOW,
                self.out@.len() == WINDOW,
                self.fill == start,
                start + take <= WINDOW,
                from + take <= to,
                to <= input@.len(),
                to <= output@.len(),
                k <= take,
                self.inp@.take(start as int) == ins0,
                self.out@.take(start as int) == outs0,
                forall|j: int| 0 <= j < k ==> #[trigger] self.inp@[start + j] == input@[from + j],
                forall|j: int| 0 <= j < k ==> #[trigger] self.out@[start + j] == output@[from + j],
            decreases take - k,
        {
            let ghost before_in = self.inp@;
            let ghost before_out = self.out@;
            self.inp.set(start + k, input[from + k]);
            self.out.set(start + k, output[from + k]);
            assert(self.inp@.take(start as int) =~= before_in.take(start as int));
            assert(self.out@.take(start as int) =~= before_out.take(start as int));
            k = k + 1;
        }
        self.fill = start + take;
        let next = from + take;
        assert forall|j: int| 0 <= j < start implies #[trigger] self.inp@[j] == ins0[j] by {
            assert(self.inp@.take(start as int)[j] == self.inp@[j]);
        }
        assert forall|j: int| start <= j < start + take implies #[trigger] self.inp@[j]
            == input@[from + (j - start)] by {
            let d = j - start;
            assert(self.inp@[start + d] == input@[from + d]);
        }
        assert(self.inputs() =~= ins0 + input@.subrange(from as int, next as int));
        assert forall|j: int| 0 <= j < start implies #[trigger] self.out@[j] == outs0[j] by {
            assert(self.out@.take(start as int)[j] == self.out@[j]);
        }
        assert forall|j: int| start <= j < start + take implies #[trigger] self.out@[j]
            == output@[from + (j - start)] by {
            let d = j - start;
            assert(self.out@[start + d] == output@[from + d]);
        }
        assert(self.outputs() =~= outs0 + output@.subrange(from as int, next as int));
        next
    }

    /// The complete window, input and output, for measuring.
    pub fn window(&self) -> (w: (&[T], &[T]))
        requires
            self.wf(),
            self.inputs().len() == WINDOW,
        ensures
            w.0@ == self.inputs(),
            w.1@ == self.outputs(),
            w.0@.len() == WINDOW,
            w.1@.len() == WINDOW,
    {
        let a = slice_subrange(self.inp.as_slice(), 0, self.fill);
        let b = slice_subrange(self.out.as_slice(), 0, self.fill);
        assert(a@ =~= self.inputs());
        assert(b@ =~= self.outputs());
        (a, b)
    }
}

} // verus!
