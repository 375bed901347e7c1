//! The tracker's per-block state machine.
//!
//! The surrounding service subscribes to finalized blocks, refetches the
//! sale-info record when a block carries a sale event, and hands each
//! observation to [`TrackerState::process_block`], which decides which
//! notification events the block triggers and advances the state. Chain
//! access itself stays outside the library; the decisions here are pure.

use vstd::prelude::*;

use crate::schedule::{resolve, spec_resolve, Config, PhaseSchedule, SaleInfo};
use crate::types::{NotificationEvent, Phase};

verus! {

/// The tracker's in-memory state: the schedule of the current sale, the
/// reference points of the last observed sale-info snapshot, the
/// configured low-inventory threshold, and which phases have already
/// fired within the current sale.
#[derive(Clone, Copy, Debug, PartialEq, Eq, Structural)]
pub struct TrackerState {
    /// Configuration snapshot; treated as constant between rotations.
    pub cfg: Config,
    /// Low-inventory threshold: a sale-progress event fires when the
    /// remaining core count sinks to this value or below.
    pub threshold: u32,
    /// Phase boundaries of the current sale.
    pub current: PhaseSchedule,
    /// `sale_start` of the current sale; a differing refetched value
    /// signals a rotation.
    pub last_sale_start: u32,
    /// The previously observed `cores_sold` of the current sale.
    pub last_cores_sold: u32,
    /// Whether the interlude notification has fired this sale.
    pub fired_interlude: bool,
    /// Whether the leadin notification has fired this sale.
    pub fired_leadin: bool,
    /// Whether the fixed-price notification has fired this sale.
    pub fired_fixed: bool,
}

impl TrackerState {
    /// The state is well formed when its schedule is the one derived from
    /// its sale start and configuration.
    pub open spec fn wf(self) -> bool {
        self.current == spec_resolve(self.last_sale_start, self.cfg)
    }

    /// Whether phase `p` has already fired within the current sale.
    pub open spec fn fired(self, p: Phase) -> bool {
        match p {
            Phase::Interlude => self.fired_interlude,
            Phase::Leadin => self.fired_leadin,
            Phase::Fixed => self.fired_fixed,
        }
    }

    /// The first block of phase `p` in the current sale.
    pub open spec fn phase_start(self, p: Phase) -> u32 {
        match p {
            Phase::Interlude => self.current.interlude_start,
            Phase::Leadin => self.current.leadin_start,
            Phase::Fixed => self.current.fixed_start,
        }
    }

    /// `self` with phase `p` marked as fired.
    pub open spec fn set_fired(self, p: Phase) -> TrackerState {
        match p {
            Phase::Interlude => TrackerState { fired_interlude: true, ..self },
            Phase::Leadin => TrackerState { fired_leadin: true, ..self },
            Phase::Fixed => TrackerState { fired_fixed: true, ..self },
        }
    }
}

/// The state the tracker starts from: the schedule derived from the
/// fetched snapshots, no phase fired yet.
pub open spec fn spec_init(sale: SaleInfo, cfg: Config, threshold: u32) -> TrackerState {
    TrackerState {
        cfg,
        threshold,
        current: spec_resolve(sale.sale_start, cfg),
        last_sale_start: sale.sale_start,
        last_cores_sold: sale.cores_sold,
        fired_interlude: false,
        fired_leadin: false,
        fired_fixed: false,
    }
}

/// What a block that carries a sale event does to the state.
///
/// A refetched `sale_start` differing from the recorded one is a
/// rotation: the schedule is recomputed, the fired set cleared, and the
/// interlude notification fires at once when the block is already at or
/// past the new interlude edge. Otherwise the remaining-core count is
/// compared against the threshold: a sale-progress event fires when the
/// count sank below its previous value to at most the threshold.
pub open spec fn spec_sale_step(s: TrackerState, n: u32, sale: SaleInfo) -> (TrackerState, Seq<
    NotificationEvent,
>) {
    if sale.sale_start != s.last_sale_start {
        let rotated = TrackerState {
            current: spec_resolve(sale.sale_start, s.cfg),
            last_sale_start: sale.sale_start,
            last_cores_sold: sale.cores_sold,
            fired_interlude: false,
            fired_leadin: false,
            fired_fixed: false,
            ..s
        };
        if n >= rotated.current.interlude_start {
            (
                TrackerState { fired_interlude: true, ..rotated },
                seq![NotificationEvent::PhaseEntered(Phase::Interlude, sale.sale_start)],
            )
        } else {
            (rotated, Seq::empty())
        }
    } else {
        let next = TrackerState { last_cores_sold: sale.cores_sold, ..s };
        if sale.cores_sold > s.last_cores_sold && sale.cores_offered - sale.cores_sold
            <= s.threshold {
            (
                next,
                seq![
                    NotificationEvent::SaleProgress(
                        (sale.cores_offered - sale.cores_sold) as u32,
                        sale.sale_start,
                    )
                ],
            )
        } else {
            (next, Seq::empty())
        }
    }
}

/// The edge detector for one phase: fire when the block is at or past the
/// phase's first block and the phase has not fired this sale.
pub open spec fn spec_edge_step(s: TrackerState, n: u32, p: Phase) -> (TrackerState, Seq<
    NotificationEvent,
>) {
    if n >= s.phase_start(p) && !s.fired(p) {
        (s.set_fired(p), seq![NotificationEvent::PhaseEntered(p, s.last_sale_start)])
    } else {
        (s, Seq::empty())
    }
}

/// The whole per-block step: the sale-event handling first, then the
/// three edge detectors in phase order.
pub open spec fn spec_process_block(s: TrackerState, n: u32, sale_event: Option<SaleInfo>) -> (
    TrackerState,
    Seq<NotificationEvent>,
) {
    let (s1, e1) = match sale_event {
        Some(sale) => spec_sale_step(s, n, sale),
        None => (s, Seq::<NotificationEvent>::empty()),
    };
    let (s2, e2) = spec_edge_step(s1, n, Phase::Interlude);
    let (s3, e3) = spec_edge_step(s2, n, Phase::Leadin);
    let (s4, e4) = spec_edge_step(s3, n, Phase::Fixed);
    (s4, e1 + e2 + e3 + e4)
}

impl TrackerState {
    /// Build the tracker's starting state from freshly fetched snapshots
    /// and the configured low-inventory threshold.
    pub fn new(sale: &SaleInfo, cfg: &Config, threshold: u32) -> (s: Self)
        ensures
            s == spec_init(*sale, *cfg, threshold),
            s.wf(),
    {
        TrackerState {
            cfg: *cfg,
            threshold,
            current: resolve(sale, cfg),
            last_sale_start: sale.sale_start,
            last_cores_sold: sale.cores_sold,
            fired_interlude: false,
            fired_leadin: false,
            fired_fixed: false,
        }
    }

    /// Process one finalized block: `n` is its number, and `sale_event`
    /// the refetched sale-info snapshot when the block carried a sale
    /// event. Returns the notification events the block triggers, in
    /// dispatch order: rotation-induced phase entry, sale progress, then
    /// the phase edges in phase order.
    pub fn process_block(&mut self, n: u32, sale_event: Option<SaleInfo>) -> (events: Vec<
        NotificationEvent,
    >)
        requires
            old(self).wf(),
            sale_event matches Some(sale) ==> sale.wf() && (sale.sale_start == old(
                self,
            ).last_sale_start ==> old(self).last_cores_sold <= sale.cores_sold),
        ensures
            *final(self) == spec_process_block(*old(self), n, sale_event).0,
            events@ == spec_process_block(*old(self), n, sale_event).1,
            final(self).wf(),
    {
        let mut events: Vec<NotificationEvent> = Vec::new();
        match sale_event {
            Some(sale) => {
                if sale.sale_start != self.last_sale_start {
                    self.current = resolve(&sale, &self.cfg);
                    self.last_sale_start = sale.sale_start;
                    self.last_cores_sold = sale.cores_sold;
                    self.fired_interlude = false;
                    self.fired_leadin = false;
                    self.fired_fixed = false;
                    if n >= self.current.interlude_start {
                        self.fired_interlude = true;
                        events.push(NotificationEvent::PhaseEntered(
                            Phase::Interlude,
                            sale.sale_start,
                        ));
                    }
                } else {
                    let remaining: u32 = sale.cores_offered - sale.cores_sold;
                    if sale.cores_sold > self.last_cores_sold && remaining <= self.threshold {
                        events.push(NotificationEvent::SaleProgress(remaining, sale.sale_start));
                    }
                    self.last_cores_sold = sale.cores_sold;
                }
            },
            None => {},
        }
        if n >= self.current.interlude_start && !self.fired_interlude {
            self.fired_interlude = true;
            events.push(NotificationEvent::PhaseEntered(Phase::Interlude, self.last_sale_start));
        }
        if n >= self.current.leadin_start && !self.fired_leadin {
            self.fired_leadin = true;
            events.push(NotificationEvent::PhaseEntered(Phase::Leadin, self.last_sale_start));
        }
        if n >= self.current.fixed_start && !self.fired_fixed {
            self.fired_fixed = true;
            events.push(NotificationEvent::PhaseEntered(Phase::Fixed, self.last_sale_start));
        }
        proof {
            assert(events@ =~= spec_process_block(*old(self), n, sale_event).1);
        }
        events
    }
}

/// `1 s`, the reconnect backoff the tracker starts from after a stream
/// error.
pub const INITIAL_BACKOFF_SECS: u64 = 1;

/// `60 s`, the cap of the reconnect backoff.
pub const MAX_BACKOFF_SECS: u64 = 60;

/// The backoff that follows `cur`: doubled, capped at
/// [`MAX_BACKOFF_SECS`].
pub open spec fn spec_next_backoff(cur: u64) -> u64 {
    if cur < 30 {
        (cur * 2) as u64
    } else {
        MAX_BACKOFF_SECS
    }
}

/// The delay, in seconds, to wait before the reconnect attempt that
/// follows one waited `cur` seconds: exponential with factor 2, capped at
/// one minute.
pub fn next_backoff(cur: u64) -> (r: u64)
    ensures
        r == spec_next_backoff(cur),
        r <= MAX_BACKOFF_SECS,
{
    if cur < 30 {
        cur * 2
    } else {
        MAX_BACKOFF_SECS
    }
}

/// Whether `e` is a phase-entered event for phase `p`.
pub open spec fn is_phase_entered(e: NotificationEvent, p: Phase) -> bool {
    e matches NotificationEvent::PhaseEntered(q, _) && q == p
}

/// How many phase-entered events for phase `p` a sequence of emitted
/// events holds.
pub open spec fn count_phase(events: Seq<NotificationEvent>, p: Phase) -> nat
    decreases events.len(),
{
    if events.len() == 0 {
        0nat
    } else {
        (if is_phase_entered(events[0], p) {
            1nat
        } else {
            0nat
        }) + count_phase(events.drop_first(), p)
    }
}

proof fn lemma_count_phase_add(a: Seq<NotificationEvent>, b: Seq<NotificationEvent>, p: Phase)
    ensures
        count_phase(a + b, p) == count_phase(a, p) + count_phase(b, p),
    decreases a.len(),
{
    if a.len() == 0 {
        assert(a + b =~= b);
    } else {
        assert((a + b).drop_first() =~= a.drop_first() + b);
        lemma_count_phase_add(a.drop_first(), b, p);
    }
}

proof fn lemma_count_phase_singleton(e: NotificationEvent, p: Phase)
    ensures
        count_phase(seq![e], p) == if is_phase_entered(e, p) {
            1nat
        } else {
            0nat
        },
{
    assert(count_phase(Seq::<NotificationEvent>::empty(), p) == 0nat);
    assert(seq![e].drop_first() =~= Seq::<NotificationEvent>::empty());
    assert(seq![e][0] == e);
}

/// Whether an observation does not rotate a tracker whose current sale is
/// `sale_start`: it either carries no sale event, or one whose refetched
/// snapshot still names the same sale.
pub open spec fn non_rotating(sale_start: u32, sale_event: Option<SaleInfo>) -> bool {
    sale_event matches Some(sale) ==> sale.sale_start == sale_start
}

/// The state and the emitted events after feeding a sequence of block
/// observations — pairs of a block number and the refetched sale-info
/// snapshot, if the block carried a sale event — to the tracker in order.
pub open spec fn spec_run(s: TrackerState, blocks: Seq<(u32, Option<SaleInfo>)>) -> (TrackerState,
    Seq<NotificationEvent>,
)
    decreases blocks.len(),
{
    if blocks.len() == 0 {
        (s, Seq::<NotificationEvent>::empty())
    } else {
        let (s1, e1) = spec_process_block(s, blocks[0].0, blocks[0].1);
        let (s2, e2) = spec_run(s1, blocks.drop_first());
        (s2, e1 + e2)
    }
}

proof fn lemma_step_phase(s: TrackerState, n: u32, sale_event: Option<SaleInfo>, p: Phase)
    requires
        non_rotating(s.last_sale_start, sale_event),
    ensures
        ({
            let (s2, evs) = spec_process_block(s, n, sale_event);
            &&& s2.last_sale_start == s.last_sale_start
            &&& s2.current == s.current
            &&& s2.cfg == s.cfg
            &&& s2.threshold == s.threshold
            &&& s2.fired(p) == (s.fired(p) || n >= s.phase_start(p))
            &&& count_phase(evs, p) == if !s.fired(p) && n >= s.phase_start(p) {
                1nat
            } else {
                0nat
            }
            &&& forall|k: int|
                0 <= k < evs.len() && is_phase_entered(#[trigger] evs[k], p) ==> evs[k]
                    == NotificationEvent::PhaseEntered(p, s.last_sale_start)
        }),
{
    let (s1, e1) = match sale_event {
        Some(sale) => spec_sale_step(s, n, sale),
        None => (s, Seq::<NotificationEvent>::empty()),
    };
    let (s2, e2) = spec_edge_step(s1, n, Phase::Interlude);
    let (s3, e3) = spec_edge_step(s2, n, Phase::Leadin);
    let (s4, e4) = spec_edge_step(s3, n, Phase::Fixed);
    assert(count_phase(Seq::<NotificationEvent>::empty(), p) == 0nat);
    if e1.len() > 0 {
        lemma_count_phase_singleton(e1[0], p);
        assert(e1 =~= seq![e1[0]]);
    }
    if e2.len() > 0 {
        lemma_count_phase_singleton(e2[0], p);
        assert(e2 =~= seq![e2[0]]);
    }
    if e3.len() > 0 {
        lemma_count_phase_singleton(e3[0], p);
        assert(e3 =~= seq![e3[0]]);
    }
    if e4.len() > 0 {
        lemma_count_phase_singleton(e4[0], p);
        assert(e4 =~= seq![e4[0]]);
    }
    lemma_count_phase_add(e1, e2, p);
    lemma_count_phase_add(e1 + e2, e3, p);
    lemma_count_phase_add(e1 + e2 + e3, e4, p);
    let evs = e1 + e2 + e3 + e4;
    assert forall|k: int|
        0 <= k < evs.len() && is_phase_entered(#[trigger] evs[k], p) implies evs[k]
        == NotificationEvent::PhaseEntered(p, s.last_sale_start) by {
        if k < e1.len() {
            assert(evs[k] == e1[k]);
        } else if k < e1.len() + e2.len() {
            assert(evs[k] == e2[k - e1.len()]);
        } else if k < e1.len() + e2.len() + e3.len() {
            assert(evs[k] == e3[k - e1.len() - e2.len()]);
        } else {
            assert(evs[k] == e4[k - e1.len() - e2.len() - e3.len()]);
        }
    }
}

proof fn lemma_count_phase_pos(events: Seq<NotificationEvent>, p: Phase)
    ensures
        count_phase(events, p) > 0 ==> exists|k: int|
            0 <= k < events.len() && is_phase_entered(#[trigger] events[k], p),
    decreases events.len(),
{
    if events.len() == 0 {
    } else if is_phase_entered(events[0], p) {
    } else {
        lemma_count_phase_pos(events.drop_first(), p);
        if count_phase(events, p) > 0 {
            let k = choose|k: int|
                0 <= k < events.drop_first().len() && is_phase_entered(
                    #[trigger] events.drop_first()[k],
                    p,
                );
            assert(events[k + 1] == events.drop_first()[k]);
        }
    }
}

proof fn lemma_run_phase(s: TrackerState, blocks: Seq<(u32, Option<SaleInfo>)>, p: Phase)
    requires
        forall|i: int|
            0 <= i < blocks.len() ==> non_rotating(s.last_sale_start, (#[trigger] blocks[i]).1),
    ensures
        ({
            let (s2, evs) = spec_run(s, blocks);
            &&& s2.last_sale_start == s.last_sale_start
            &&& s2.current == s.current
            &&& s2.cfg == s.cfg
            &&& s2.threshold == s.threshold
            &&& s2.fired(p) == (s.fired(p) || exists|i: int|
                0 <= i < blocks.len() && (#[trigger] blocks[i]).0 >= s.phase_start(p))
            &&& count_phase(evs, p) == if !s.fired(p) && (exists|i: int|
                0 <= i < blocks.len() && (#[trigger] blocks[i]).0 >= s.phase_start(p)) {
                1nat
            } else {
                0nat
            }
            &&& forall|k: int|
                0 <= k < evs.len() && is_phase_entered(#[trigger] evs[k], p) ==> evs[k]
                    == NotificationEvent::PhaseEntered(p, s.last_sale_start)
        }),
    decreases blocks.len(),
{
    if blocks.len() == 0 {
    } else {
        let (s1, e1) = spec_process_block(s, blocks[0].0, blocks[0].1);
        lemma_step_phase(s, blocks[0].0, blocks[0].1, p);
        let rest = blocks.drop_first();
        assert(forall|i: int|
            0 <= i < rest.len() ==> non_rotating(s1.last_sale_start, (#[trigger] rest[i]).1))
            by {
            assert(forall|i: int|
                0 <= i < rest.len() ==> #[trigger] rest[i] == blocks[i + 1]);
        }
        lemma_run_phase(s1, rest, p);
        let (s2, e2) = spec_run(s1, rest);
        lemma_count_phase_add(e1, e2, p);
        assert(s1.phase_start(p) == s.phase_start(p));
        if exists|i: int| 0 <= i < rest.len() && (#[trigger] rest[i]).0 >= s.phase_start(p) {
            let i = choose|i: int|
                0 <= i < rest.len() && (#[trigger] rest[i]).0 >= s.phase_start(p);
            assert(blocks[i + 1] == rest[i]);
            assert(blocks[i + 1].0 >= s.phase_start(p));
        }
        if exists|i: int| 0 <= i < blocks.len() && (#[trigger] blocks[i]).0 >= s.phase_start(p) {
            let i = choose|i: int|
                0 <= i < blocks.len() && (#[trigger] blocks[i]).0 >= s.phase_start(p);
            if i > 0 {
                assert(rest[i - 1] == blocks[i]);
            }
        }
        let evs = e1 + e2;
        assert forall|k: int|
            0 <= k < evs.len() && is_phase_entered(#[trigger] evs[k], p) implies evs[k]
            == NotificationEvent::PhaseEntered(p, s.last_sale_start) by {
            if k < e1.len() {
                assert(evs[k] == e1[k]);
            } else {
                assert(evs[k] == e2[k - e1.len()]);
            }
        }
    }
}

/// Within one sale, each phase fires at most once: over any sequence of
/// block observations that stay within the tracker's current sale, the
/// number of phase-entered events emitted for a phase — counting one more
/// when the phase had already fired before the sequence — never exceeds
/// one.
pub proof fn lemma_phase_at_most_once(
    s: TrackerState,
    blocks: Seq<(u32, Option<SaleInfo>)>,
    p: Phase,
)
    requires
        forall|i: int|
            0 <= i < blocks.len() ==> non_rotating(s.last_sale_start, (#[trigger] blocks[i]).1),
    ensures
        count_phase(spec_run(s, blocks).1, p) + (if s.fired(p) {
            1nat
        } else {
            0nat
        }) <= 1,
{
    lemma_run_phase(s, blocks, p);
}

/// Within one sale, a phase whose edge is observed does fire: over any
/// sequence of block observations that stay within the tracker's current
/// sale, if some block is at or past the phase's first block, the phase
/// is marked fired afterwards, and — unless it had fired before the
/// sequence — exactly one phase-entered event for it is emitted, naming
/// the phase and the sale it belongs to.
pub proof fn lemma_phase_completeness(
    s: TrackerState,
    blocks: Seq<(u32, Option<SaleInfo>)>,
    p: Phase,
)
    requires
        forall|i: int|
            0 <= i < blocks.len() ==> non_rotating(s.last_sale_start, (#[trigger] blocks[i]).1),
        exists|i: int| 0 <= i < blocks.len() && (#[trigger] blocks[i]).0 >= s.phase_start(p),
    ensures
        spec_run(s, blocks).0.fired(p),
        !s.fired(p) ==> count_phase(spec_run(s, blocks).1, p) == 1,
        !s.fired(p) ==> spec_run(s, blocks).1.contains(
            NotificationEvent::PhaseEntered(p, s.last_sale_start),
        ),
{
    lemma_run_phase(s, blocks, p);
    if !s.fired(p) {
        let evs = spec_run(s, blocks).1;
        lemma_count_phase_pos(evs, p);
        let k = choose|k: int| 0 <= k < evs.len() && is_phase_entered(#[trigger] evs[k], p);
        assert(evs[k] == NotificationEvent::PhaseEntered(p, s.last_sale_start));
    }
}

} // verus!
