//! When the processor publishes its sticky streams.
//!
//! The meter and the aliasing frame go out every block. The alignment frame
//! is sticky and only moves when the oversampling factor, the sample rate or
//! the engine's state does, so it goes out on the first block after any of
//! those and not otherwise. The transfer and colour curves are sticky too,
//! and are redrawn only when something they depend on has moved — and then
//! only on a block whose count is a multiple of four, so a swept knob does
//! not flood the wire.
//!
//! The block counter wraps rather than stopping; four divides its range, so
//! the every-fourth-block rhythm is unbroken across the wrap.

use vstd::prelude::*;

verus! {

/// What one block publishes besides the meter and the aliasing frame.
#[derive(Clone, Copy, Debug)]
pub struct Plan {
    /// The alignment frame.
    pub latency: bool,
    /// The transfer and colour curves, redrawn.
    pub curves: bool,
}

/// The block counter after one more block.
pub open spec fn next_count(blocks: u64) -> u64 {
    if blocks == u64::MAX {
        0
    } else {
        (blocks + 1) as u64
    }
}

/// The block counter after `n` more blocks.
pub open spec fn count_after(blocks: u64, n: nat) -> u64
    decreases n,
{
    if n == 0 {
        blocks
    } else {
        next_count(count_after(blocks, (n - 1) as nat))
    }
}

/// Which sticky streams are due, and how many blocks have gone out.
pub struct PublishSchedule {
    blocks: u64,
    curves_due: bool,
    latency_due: bool,
}

impl PublishSchedule {
    /// Blocks published so far, wrapping.
    pub closed spec fn blocks(&self) -> u64 {
        self.blocks
    }

    /// Whether the curves have to be redrawn.
    pub closed spec fn curves_due(&self) -> bool {
        self.curves_due
    }

    /// Whether the alignment frame has to go out.
    pub closed spec fn latency_due(&self) -> bool {
        self.latency_due
    }

    /// A fresh processor: nothing published, everything due.
    pub fn new() -> (s: Self)
        ensures
            s.blocks() == 0,
            s.curves_due(),
            s.latency_due(),
    {
        PublishSchedule { blocks: 0, curves_due: true, latency_due: true }
    }

    /// The sample rate changed or the engine was reset: both the curves and
    /// the alignment frame are due again.
    pub fn invalidate(&mut self)
        ensures
            final(self).blocks() == old(self).blocks(),
            final(self).curves_due(),
            final(self).latency_due(),
    {
        self.curves_due = true;
        self.latency_due = true;
    }

    /// A settings snapshot arrived. `changed`: it differs from the one the
    /// curves were last drawn for; `factor_changed`: its oversampling factor
    /// differs from that one's, or nothing has been drawn yet.
    pub fn settings(&mut self, changed: bool, factor_changed: bool)
        ensures
            final(self).blocks() == old(self).blocks(),
            final(self).curves_due() == (old(self).curves_due() || changed),
            final(self).latency_due() == (old(self).latency_due() || (changed && factor_changed)),
    {
        if changed {
            if factor_changed {
                self.latency_due = true;
            }
            self.curves_due = true;
        }
    }

    /// One block is being published: what goes out with it.
    pub fn publish(&mut self) -> (p: Plan)
        ensures
            p.latency == old(self).latency_due(),
            !final(self).latency_due(),
            final(self).blocks() == next_count(old(self).blocks()),
            p.curves == (old(self).curves_due() && final(self).blocks() % 4 == 0),
            final(self).curves_due() == (old(self).curves_due() && !p.curves),
    {
        let latency = self.latency_due;
        self.latency_due = false;
        self.blocks = if self.blocks == u64::MAX {
            0
        } else {
            self.blocks + 1
        };
        let curves = self.curves_due && self.blocks % 4 == 0;
        if curves {
            self.curves_due = false;
        }
        Plan { latency, curves }
    }
}

/// Counting on wraps in step with four: `n` blocks later the count's
/// remainder by four has moved on by `n`.
pub proof fn lemma_count_after_mod_four(blocks: u64, n: nat)
    ensures
        count_after(blocks, n) % 4 == (blocks as nat + n) % 4,
    decreases n,
{
    if n > 0 {
        lemma_count_after_mod_four(blocks, (n - 1) as nat);
        let c = count_after(blocks, (n - 1) as nat);
        if c == u64::MAX {
            assert(u64::MAX % 4 == 3);
        }
    }
}

/// **Due curves go out within four blocks.** However the counter stands,
/// the next block whose count is a multiple of four is at most four blocks
/// away, so curves that are due are redrawn within four publishes — and
/// never on any other block.
pub proof fn lemma_due_curves_go_out_within_four_blocks(blocks: u64)
    ensures
        ({
            let wait = (4 - blocks % 4) as nat;
            &&& 1 <= wait <= 4
            &&& count_after(blocks, wait) % 4 == 0
            &&& forall|j: nat| 1 <= j < wait ==> #[trigger] count_after(blocks, j) % 4 != 0
        }),
{
    let wait = (4 - blocks % 4) as nat;
    lemma_count_after_mod_four(blocks, wait);
    assert forall|j: nat| 1 <= j < wait implies #[trigger] count_after(blocks, j) % 4 != 0 by {
        lemma_count_after_mod_four(blocks, j);
    }
}

// ---------------------------------------------------------------------------
// The schedule over a whole run, counted from a fresh processor
// ---------------------------------------------------------------------------

/// One thing that happens to a processor's schedule.
#[derive(Clone, Copy, Debug)]
pub enum ScheduleEvent {
    /// A block is published.
    Publish,
    /// The sample rate changed or the engine was reset.
    Invalidate,
    /// A settings snapshot arrived (see [`PublishSchedule::settings`]).
    Settings { changed: bool, factor_changed: bool },
}

/// How many of `events` are publishes.
pub open spec fn publish_count(events: Seq<ScheduleEvent>) -> nat
    decreases events.len(),
{
    if events.len() == 0 {
        0
    } else {
        publish_count(events.drop_last()) + if events.last() is Publish {
            1nat
        } else {
            0nat
        }
    }
}

/// Whether event `p` is a publish whose number, counting from one, is a
/// multiple of four: a block on which due curves are drawn.
pub open spec fn fourth_publish(events: Seq<ScheduleEvent>, p: int) -> bool {
    events[p] is Publish && publish_count(events.take(p + 1)) % 4 == 0
}

/// Whether an event makes the alignment frame due: a reset, a new sample
/// rate, or a changed snapshot with a new oversampling factor.
pub open spec fn moves_latency(e: ScheduleEvent) -> bool {
    match e {
        ScheduleEvent::Publish => false,
        ScheduleEvent::Invalidate => true,
        ScheduleEvent::Settings { changed, factor_changed } => changed && factor_changed,
    }
}

/// Whether an event makes the curves due: a reset, a new sample rate, or any
/// changed snapshot.
pub open spec fn moves_curves(e: ScheduleEvent) -> bool {
    match e {
        ScheduleEvent::Publish => false,
        ScheduleEvent::Invalidate => true,
        ScheduleEvent::Settings { changed, .. } => changed,
    }
}

/// Before event `n`, the alignment frame is pending: no block has been
/// published since the processor was made, or since some event that moves
/// the latency.
pub open spec fn latency_pending(events: Seq<ScheduleEvent>, n: int) -> bool {
    ||| forall|p: int| 0 <= p < n ==> !(#[trigger] events[p] is Publish)
    ||| exists|t: int|
        0 <= t < n && #[trigger] moves_latency(events[t]) && forall|p: int|
            t < p < n ==> !(#[trigger] events[p] is Publish)
}

/// Before event `n`, a redraw is pending: no fourth publish has happened
/// since the processor was made, or since some event that moves the curves.
pub open spec fn curves_pending(events: Seq<ScheduleEvent>, n: int) -> bool {
    ||| forall|p: int| 0 <= p < n ==> !#[trigger] fourth_publish(events, p)
    ||| exists|t: int|
        0 <= t < n && #[trigger] moves_curves(events[t]) && forall|p: int|
            t < p < n ==> !#[trigger] fourth_publish(events, p)
}

proof fn lemma_publish_count_step(events: Seq<ScheduleEvent>, i: int)
    requires
        0 <= i < events.len(),
    ensures
        publish_count(events.take(i + 1)) == publish_count(events.take(i)) + if events[i] is Publish {
            1nat
        } else {
            0nat
        },
{
    assert(events.take(i + 1).drop_last() =~= events.take(i));
}

/// **What a fresh processor publishes, event by event.** Feed a new
/// schedule `events` in order; the result holds, for each publish, what
/// went out with it, and `None` for every other event. On each publish:
///
/// - the alignment frame goes out exactly when no block has gone out since
///   the processor was made, or since a reset, a new sample rate or a
///   snapshot that changed the oversampling factor — so once per change;
/// - the curves go out exactly on publishes number 4, 8, 12, … (counting
///   from one, from the processor's creation) while a redraw is pending,
///   that is, while no such publish has happened since the processor was
///   made or since a reset, a new sample rate or a changed snapshot.
pub fn replay_schedule(events: &[ScheduleEvent]) -> (plans: Vec<Option<Plan>>)
    ensures
        plans@.len() == events@.len(),
        forall|n: int|
            0 <= n < events@.len() ==> (#[trigger] plans@[n] is Some <==> events@[n] is Publish),
        forall|n: int|
            0 <= n < events@.len() && events@[n] is Publish ==> (#[trigger] plans@[n]).unwrap().latency
                == latency_pending(events@, n),
        forall|n: int|
            0 <= n < events@.len() && events@[n] is Publish ==> (#[trigger] plans@[n]).unwrap().curves
                == (publish_count(events@.take(n + 1)) % 4 == 0 && curves_pending(events@, n)),
{
    let ghost es = events@;
    let mut sched = PublishSchedule::new();
    let mut plans: Vec<Option<Plan>> = Vec::new();
    let mut i: usize = 0;
    assert(es.take(0) =~= Seq::<ScheduleEvent>::empty());
    while i < events.len()
        invariant
            es == events@,
            i <= es.len(),
            plans@.len() == i,
            sched.latency_due() == latency_pending(es, i as int),
            sched.curves_due() == curves_pending(es, i as int),
            sched.blocks() as nat % 4 == publish_count(es.take(i as int)) % 4,
            forall|n: int| 0 <= n < i ==> (#[trigger] plans@[n] is Some <==> es[n] is Publish),
            forall|n: int|
                0 <= n < i && es[n] is Publish ==> (#[trigger] plans@[n]).unwrap().latency
                    == latency_pending(es, n),
            forall|n: int|
                0 <= n < i && es[n] is Publish ==> (#[trigger] plans@[n]).unwrap().curves == (
                publish_count(es.take(n + 1)) % 4 == 0 && curves_pending(es, n)),
        decreases es.len() - i,
    {
        let ghost ii = i as int;
        proof {
            lemma_publish_count_step(es, ii);
        }
        let ghost lat_before = latency_pending(es, ii);
        let ghost cur_before = curves_pending(es, ii);
        match events[i] {
            ScheduleEvent::Publish => {
                let ghost b = sched.blocks();
                let p = sched.publish();
                proof {
                    assert(u64::MAX as nat % 4 == 3);
                    assert(sched.blocks() as nat % 4 == publish_count(es.take(ii + 1)) % 4);
                    assert(fourth_publish(es, ii) == (sched.blocks() % 4 == 0));
                    // Nothing is pending for the alignment frame after a publish.
                    assert(!latency_pending(es, ii + 1)) by {
                        assert(es[ii] is Publish);
                        if exists|t: int|
                            0 <= t < ii + 1 && #[trigger] moves_latency(es[t]) && forall|q: int|
                                t < q < ii + 1 ==> !(#[trigger] es[q] is Publish) {
                            let t = choose|t: int|
                                0 <= t < ii + 1 && #[trigger] moves_latency(es[t]) && forall|q: int|
                                    t < q < ii + 1 ==> !(#[trigger] es[q] is Publish);
                            assert(t != ii);
                            assert(es[ii] is Publish);
                        }
                    }
                    if fourth_publish(es, ii) {
                        assert(!curves_pending(es, ii + 1)) by {
                            if exists|t: int|
                                0 <= t < ii + 1 && #[trigger] moves_curves(es[t]) && forall|q: int|
                                    t < q < ii + 1 ==> !#[trigger] fourth_publish(es, q) {
                                let t = choose|t: int|
                                    0 <= t < ii + 1 && #[trigger] moves_curves(es[t]) && forall|q: int|
                                        t < q < ii + 1 ==> !#[trigger] fourth_publish(es, q);
                                assert(t != ii);
                                assert(fourth_publish(es, ii));
                            }
                        }
                    } else {
                        assert(curves_pending(es, ii + 1) == cur_before) by {
                            if cur_before {
                                if forall|q: int| 0 <= q < ii ==> !#[trigger] fourth_publish(es, q) {
                                    assert forall|q: int| 0 <= q < ii + 1 implies !#[trigger] fourth_publish(es, q) by {
                                    }
                                } else {
                                    let t = choose|t: int|
                                        0 <= t < ii && #[trigger] moves_curves(es[t]) && forall|q: int|
                                            t < q < ii ==> !#[trigger] fourth_publish(es, q);
                                    assert forall|q: int| t < q < ii + 1 implies !#[trigger] fourth_publish(es, q) by {
                                    }
                                }
                            }
                            if curves_pending(es, ii + 1) {
                                if forall|q: int| 0 <= q < ii + 1 ==> !#[trigger] fourth_publish(es, q) {
                                    assert forall|q: int| 0 <= q < ii implies !#[trigger] fourth_publish(es, q) by {
                                        assert(!fourth_publish(es, q));
                                    }
                                } else {
                                    let t = choose|t: int|
                                        0 <= t < ii + 1 && #[trigger] moves_curves(es[t]) && forall|q: int|
                                            t < q < ii + 1 ==> !#[trigger] fourth_publish(es, q);
                                    assert(t != ii);
                                    assert forall|q: int| t < q < ii implies !#[trigger] fourth_publish(es, q) by {
                                        assert(!fourth_publish(es, q));
                                    }
                                }
                            }
                        }
                    }
                }
                plans.push(Some(p));
            },
            ScheduleEvent::Invalidate => {
                sched.invalidate();
                proof {
                    assert(moves_latency(es[ii]));
                    assert(moves_curves(es[ii]));
                    assert(latency_pending(es, ii + 1));
                    assert(curves_pending(es, ii + 1));
                }
                plans.push(None);
            },
            ScheduleEvent::Settings { changed, factor_changed } => {
                sched.settings(changed, factor_changed);
                proof {
                    if changed && factor_changed {
                        assert(moves_latency(es[ii]));
                        assert(latency_pending(es, ii + 1));
                    } else {
                        assert(latency_pending(es, ii + 1) == lat_before) by {
                            if lat_before {
                                if forall|q: int| 0 <= q < ii ==> !(#[trigger] es[q] is Publish) {
                                    assert forall|q: int| 0 <= q < ii + 1 implies !(#[trigger] es[q] is Publish) by {
                                    }
                                } else {
                                    let t = choose|t: int|
                                        0 <= t < ii && #[trigger] moves_latency(es[t]) && forall|q: int|
                                            t < q < ii ==> !(#[trigger] es[q] is Publish);
                                    assert forall|q: int| t < q < ii + 1 implies !(#[trigger] es[q] is Publish) by {
                                    }
                                }
                            }
                            if latency_pending(es, ii + 1) {
                                if forall|q: int| 0 <= q < ii + 1 ==> !(#[trigger] es[q] is Publish) {
                                    assert forall|q: int| 0 <= q < ii implies !(#[trigger] es[q] is Publish) by {
                                        assert(!(es[q] is Publish));
                                    }
                                } else {
                                    let t = choose|t: int|
                                        0 <= t < ii + 1 && #[trigger] moves_latency(es[t]) && forall|q: int|
                                            t < q < ii + 1 ==> !(#[trigger] es[q] is Publish);
                                    assert(t != ii);
                                    assert forall|q: int| t < q < ii implies !(#[trigger] es[q] is Publish) by {
                                        assert(!(es[q] is Publish));
                                    }
                                }
                            }
                        }
                    }
                    if changed {
                        assert(moves_curves(es[ii]));
                        assert(curves_pending(es, ii + 1));
                    } else {
                        assert(!fourth_publish(es, ii));
                        assert(curves_pending(es, ii + 1) == cur_before) by {
                            if cur_before {
                                if forall|q: int| 0 <= q < ii ==> !#[trigger] fourth_publish(es, q) {
                                    assert forall|q: int| 0 <= q < ii + 1 implies !#[trigger] fourth_publish(es, q) by {
                                    }
                                } else {
                                    let t = choose|t: int|
                                        0 <= t < ii && #[trigger] moves_curves(es[t]) && forall|q: int|
                                            t < q < ii ==> !#[trigger] fourth_publish(es, q);
                                    assert forall|q: int| t < q < ii + 1 implies !#[trigger] fourth_publish(es, q) by {
                                    }
                                }
                            }
                            if curves_pending(es, ii + 1) {
                                if forall|q: int| 0 <= q < ii + 1 ==> !#[trigger] fourth_publish(es, q) {
                                    assert forall|q: int| 0 <= q < ii implies !#[trigger] fourth_publish(es, q) by {
                                        assert(!fourth_publish(es, q));
                                    }
                                } else {
                                    let t = choose|t: int|
                                        0 <= t < ii + 1 && #[trigger] moves_curves(es[t]) && forall|q: int|
                                            t < q < ii + 1 ==> !#[trigger] fourth_publish(es, q);
                                    assert(t != ii);
                                    assert forall|q: int| t < q < ii implies !#[trigger] fourth_publish(es, q) by {
                                        assert(!fourth_publish(es, q));
                                    }
                                }
                            }
                        }
                    }
                }
                plans.push(None);
            },
        }
        i = i + 1;
    }
    plans
}


} // verus!
