use noob_saturator::dsp::publish::{replay_schedule, ScheduleEvent};

use ScheduleEvent::{Invalidate, Publish, Settings};

fn publishes(n: usize) -> Vec<ScheduleEvent> {
    vec![Publish; n]
}

#[test]
fn a_fresh_processor_sends_the_alignment_frame_once_and_the_curves_on_the_fourth_block() {
    let plans = replay_schedule(&publishes(12));
    let latency: Vec<bool> = plans.iter().map(|p| p.unwrap().latency).collect();
    let curves: Vec<bool> = plans.iter().map(|p| p.unwrap().curves).collect();
    assert_eq!(latency, [true, false, false, false, false, false, false, false, false, false, false, false]);
    assert_eq!(curves, [false, false, false, true, false, false, false, false, false, false, false, false]);
}

#[test]
fn only_publishes_produce_a_plan() {
    let events = [Publish, Invalidate, Settings { changed: false, factor_changed: false }, Publish];
    let plans = replay_schedule(&events);
    assert_eq!(plans.len(), 4);
    assert!(plans[0].is_some() && plans[1].is_none() && plans[2].is_none() && plans[3].is_some());
}

#[test]
fn a_changed_factor_resends_the_alignment_frame_once() {
    let mut events = publishes(5);
    events.push(Settings { changed: true, factor_changed: true });
    events.extend(publishes(3));
    let plans = replay_schedule(&events);
    assert!(plans[6].unwrap().latency);
    assert!(!plans[7].unwrap().latency);
    assert!(!plans[8].unwrap().latency);
    // The redraw the change asked for waits for publish number 8.
    assert!(!plans[6].unwrap().curves && plans[8].unwrap().curves);
}

#[test]
fn a_change_that_keeps_the_factor_redraws_the_curves_only() {
    let mut events = publishes(4);
    events.push(Settings { changed: true, factor_changed: false });
    events.extend(publishes(4));
    let plans = replay_schedule(&events);
    let sent: Vec<(bool, bool)> = plans
        .iter()
        .flatten()
        .map(|p| (p.latency, p.curves))
        .collect();
    assert_eq!(
        sent,
        [
            (true, false),
            (false, false),
            (false, false),
            (false, true),
            (false, false),
            (false, false),
            (false, false),
            (false, true),
        ]
    );
}

#[test]
fn an_unchanged_snapshot_asks_for_nothing() {
    let mut events = publishes(4);
    events.push(Settings { changed: false, factor_changed: true });
    events.extend(publishes(4));
    let plans = replay_schedule(&events);
    for p in plans.iter().skip(5) {
        let p = p.unwrap();
        assert!(!p.latency && !p.curves);
    }
}

#[test]
fn a_reset_makes_both_due_again() {
    let mut events = publishes(4);
    events.push(Invalidate);
    events.extend(publishes(4));
    let plans = replay_schedule(&events);
    assert!(plans[5].unwrap().latency);
    assert!(plans[8].unwrap().curves);
    assert_eq!(plans.iter().flatten().filter(|p| p.curves).count(), 2);
}

#[test]
fn several_changes_before_a_fourth_block_draw_once() {
    let mut events = vec![Publish];
    for _ in 0..3 {
        events.push(Settings { changed: true, factor_changed: false });
        events.push(Publish);
    }
    events.extend(publishes(8));
    let plans = replay_schedule(&events);
    assert_eq!(plans.iter().flatten().filter(|p| p.curves).count(), 1);
}
