use coretime_notifier::schedule::{Config, SaleInfo};
use coretime_notifier::tracker::{
    next_backoff, TrackerState, INITIAL_BACKOFF_SECS, MAX_BACKOFF_SECS,
};
use coretime_notifier::types::{NotificationEvent, Phase};

fn sale(sale_start: u32, cores_offered: u32, cores_sold: u32) -> SaleInfo {
    SaleInfo { sale_start, cores_offered, cores_sold }
}

fn standard_tracker() -> TrackerState {
    // sale_start 1000, interlude 100, leadin 50: schedule (900, 1000, 1050).
    TrackerState::new(
        &sale(1_000, 5, 0),
        &Config { interlude_length: 100, leadin_length: 50 },
        1,
    )
}

#[test]
fn normal_rollover_fires_each_edge_once() {
    let mut t = standard_tracker();
    assert_eq!(t.current.interlude_start, 900);
    assert_eq!(t.current.leadin_start, 1_000);
    assert_eq!(t.current.fixed_start, 1_050);

    assert_eq!(t.process_block(899, None), vec![]);
    assert_eq!(
        t.process_block(900, None),
        vec![NotificationEvent::PhaseEntered(Phase::Interlude, 1_000)]
    );
    assert_eq!(
        t.process_block(1_000, None),
        vec![NotificationEvent::PhaseEntered(Phase::Leadin, 1_000)]
    );
    assert_eq!(t.process_block(1_049, None), vec![]);
    assert_eq!(
        t.process_block(1_050, None),
        vec![NotificationEvent::PhaseEntered(Phase::Fixed, 1_000)]
    );
}

#[test]
fn start_mid_sale_catches_up_past_edges() {
    let mut t = standard_tracker();
    assert_eq!(
        t.process_block(1_020, None),
        vec![
            NotificationEvent::PhaseEntered(Phase::Interlude, 1_000),
            NotificationEvent::PhaseEntered(Phase::Leadin, 1_000),
        ]
    );
}

#[test]
fn rotation_resets_and_fires_by_the_same_rule() {
    let mut t = standard_tracker();
    // Fire all three phases of the current sale first.
    assert_eq!(t.process_block(1_100, None).len(), 3);
    // Block 1200 carries a sale event; the refetched sale starts at 2000,
    // so the new interlude begins at 1900 and nothing fires yet.
    assert_eq!(t.process_block(1_200, Some(sale(2_000, 5, 0))), vec![]);
    assert_eq!(t.current.interlude_start, 1_900);
    // The first block at or past the new edge fires the interlude.
    assert_eq!(
        t.process_block(1_900, None),
        vec![NotificationEvent::PhaseEntered(Phase::Interlude, 2_000)]
    );
}

#[test]
fn rotation_past_new_edge_fires_interlude_at_once() {
    let mut t = standard_tracker();
    assert_eq!(t.process_block(1_100, None).len(), 3);
    // The refetched sale starts at 1150: the rotation block 1200 is
    // already past the new interlude edge 1050, so the interlude fires
    // with the rotation itself.
    assert_eq!(
        t.process_block(1_200, Some(sale(1_150, 5, 0))),
        vec![
            NotificationEvent::PhaseEntered(Phase::Interlude, 1_150),
            NotificationEvent::PhaseEntered(Phase::Leadin, 1_150),
            NotificationEvent::PhaseEntered(Phase::Fixed, 1_150),
        ]
    );
}

#[test]
fn low_inventory_fires_on_each_drop_at_or_below_threshold() {
    let mut t = TrackerState::new(
        &sale(1_000, 5, 3),
        &Config { interlude_length: 100, leadin_length: 50 },
        1,
    );
    // Blocks well before any phase edge: only sale progress can fire.
    assert_eq!(
        t.process_block(10, Some(sale(1_000, 5, 4))),
        vec![NotificationEvent::SaleProgress(1, 1_000)]
    );
    assert_eq!(
        t.process_block(11, Some(sale(1_000, 5, 5))),
        vec![NotificationEvent::SaleProgress(0, 1_000)]
    );
    // No further drop: nothing fires.
    assert_eq!(t.process_block(12, Some(sale(1_000, 5, 5))), vec![]);
}

#[test]
fn remaining_above_threshold_stays_silent() {
    let mut t = TrackerState::new(
        &sale(1_000, 5, 0),
        &Config { interlude_length: 100, leadin_length: 50 },
        1,
    );
    // 5 -> 3 remaining, still above the threshold of 1.
    assert_eq!(t.process_block(10, Some(sale(1_000, 5, 2))), vec![]);
}

#[test]
fn saturated_interlude_fires_once_from_block_zero() {
    let mut t = TrackerState::new(
        &sale(10, 5, 0),
        &Config { interlude_length: 100, leadin_length: 50 },
        1,
    );
    assert_eq!(t.current.interlude_start, 0);
    assert_eq!(
        t.process_block(0, None),
        vec![NotificationEvent::PhaseEntered(Phase::Interlude, 10)]
    );
    assert_eq!(t.process_block(1, None), vec![]);
    assert_eq!(t.process_block(5, None), vec![]);
}

#[test]
fn edges_never_refire_within_one_sale() {
    let mut t = standard_tracker();
    assert_eq!(t.process_block(900, None).len(), 1);
    assert_eq!(t.process_block(901, None), vec![]);
    assert_eq!(t.process_block(950, None), vec![]);
    assert_eq!(t.process_block(1_050, None).len(), 2);
    assert_eq!(t.process_block(1_051, None), vec![]);
}

#[test]
fn backoff_doubles_and_caps_at_one_minute() {
    assert_eq!(INITIAL_BACKOFF_SECS, 1);
    assert_eq!(MAX_BACKOFF_SECS, 60);
    let mut b = INITIAL_BACKOFF_SECS;
    let mut seen: Vec<u64> = Vec::new();
    for _ in 0..8 {
        b = next_backoff(b);
        seen.push(b);
    }
    assert_eq!(seen, vec![2, 4, 8, 16, 32, 60, 60, 60]);
}
