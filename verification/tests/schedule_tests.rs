use coretime_notifier::schedule::{resolve, Config, PhaseSchedule, SaleInfo};

fn sale(sale_start: u32) -> SaleInfo {
    SaleInfo { sale_start, cores_offered: 0, cores_sold: 0 }
}

#[test]
fn resolve_normal_schedule() {
    let cfg = Config { interlude_length: 100, leadin_length: 50 };
    let r = resolve(&sale(1_000), &cfg);
    assert_eq!(
        r,
        PhaseSchedule { interlude_start: 900, leadin_start: 1_000, fixed_start: 1_050 }
    );
}

#[test]
fn resolve_saturates_interlude_at_zero() {
    let cfg = Config { interlude_length: 100, leadin_length: 0 };
    let r = resolve(&sale(0), &cfg);
    assert_eq!(r.interlude_start, 0);
    let r = resolve(&sale(10), &cfg);
    assert_eq!(r.interlude_start, 0);
    assert_eq!(r.leadin_start, 10);
}

#[test]
fn resolve_saturates_fixed_at_max() {
    let cfg = Config { interlude_length: 0, leadin_length: 100 };
    let r = resolve(&sale(u32::MAX - 10), &cfg);
    assert_eq!(r.fixed_start, u32::MAX);
    assert_eq!(r.leadin_start, u32::MAX - 10);
}

#[test]
fn resolve_is_idempotent() {
    let cfg = Config { interlude_length: 40, leadin_length: 7 };
    assert_eq!(resolve(&sale(500), &cfg), resolve(&sale(500), &cfg));
}

#[test]
fn resolve_is_monotone_in_sale_start() {
    let cfg = Config { interlude_length: 40, leadin_length: 7 };
    let a = resolve(&sale(100), &cfg);
    let b = resolve(&sale(200), &cfg);
    assert!(a.interlude_start <= b.interlude_start);
    assert!(a.leadin_start <= b.leadin_start);
    assert!(a.fixed_start <= b.fixed_start);
}

#[test]
fn resolve_boundaries_are_ordered() {
    let cfg = Config { interlude_length: 1_000, leadin_length: 1_000 };
    let r = resolve(&sale(30), &cfg);
    assert!(r.interlude_start <= r.leadin_start);
    assert!(r.leadin_start <= r.fixed_start);
}
