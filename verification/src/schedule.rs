//! Sale schedule resolution: from a sale-info and configuration snapshot,
//! derive the block numbers at which the three phases of a sale begin.

use vstd::prelude::*;

verus! {

/// The fields of the broker's sale-info storage record that the notifier
/// reads: the block at which the leadin begins and the core counters.
///
/// A well-formed snapshot never reports more cores sold than offered.
#[derive(Clone, Copy, Debug, PartialEq, Eq, Structural)]
pub struct SaleInfo {
    /// Block number at which the leadin phase of this sale begins.
    pub sale_start: u32,
    /// Number of cores put up for sale in this sale.
    pub cores_offered: u32,
    /// Number of cores sold so far in this sale.
    pub cores_sold: u32,
}

impl SaleInfo {
    /// A snapshot is well formed when the sold count does not exceed the
    /// offered count.
    pub open spec fn wf(self) -> bool {
        self.cores_sold <= self.cores_offered
    }
}

/// The fields of the broker's configuration record that the notifier
/// reads: the lengths, in blocks, of the interlude and leadin phases.
#[derive(Clone, Copy, Debug, PartialEq, Eq, Structural)]
pub struct Config {
    /// Length of the interlude phase, in blocks.
    pub interlude_length: u32,
    /// Length of the leadin phase, in blocks.
    pub leadin_length: u32,
}

/// The derived phase boundaries of one sale: the first block of the
/// interlude, of the leadin, and of the fixed-price phase.
#[derive(Clone, Copy, Debug, PartialEq, Eq, Structural)]
pub struct PhaseSchedule {
    /// First block of the interlude phase (saturates at 0).
    pub interlude_start: u32,
    /// First block of the leadin phase; equal to the sale's `sale_start`.
    pub leadin_start: u32,
    /// First block of the fixed-price phase (saturates at `u32::MAX`).
    pub fixed_start: u32,
}

/// `a - b`, saturating at zero.
pub open spec fn spec_sat_sub(a: u32, b: u32) -> u32 {
    if a >= b {
        (a - b) as u32
    } else {
        0u32
    }
}

/// `a + b`, saturating at `u32::MAX`.
pub open spec fn spec_sat_add(a: u32, b: u32) -> u32 {
    if a + b <= u32::MAX {
        (a + b) as u32
    } else {
        u32::MAX
    }
}

/// The schedule derived from a sale's start block and the configuration:
/// the leadin begins at `sale_start`, the interlude `interlude_length`
/// blocks earlier (saturating at 0), and the fixed-price phase
/// `leadin_length` blocks later (saturating at `u32::MAX`).
pub open spec fn spec_resolve(sale_start: u32, cfg: Config) -> PhaseSchedule {
    PhaseSchedule {
        interlude_start: spec_sat_sub(sale_start, cfg.interlude_length),
        leadin_start: sale_start,
        fixed_start: spec_sat_add(sale_start, cfg.leadin_length),
    }
}

impl PhaseSchedule {
    /// The boundaries of a derived schedule are ordered: interlude, then
    /// leadin, then fixed price.
    pub open spec fn wf(self) -> bool {
        self.interlude_start <= self.leadin_start <= self.fixed_start
    }
}

/// Derive the phase boundaries for the sale described by `sale` under the
/// configuration `cfg`. Pure; there is no failure path: subtraction
/// saturates at 0 and addition at `u32::MAX`.
pub fn resolve(sale: &SaleInfo, cfg: &Config) -> (r: PhaseSchedule)
    ensures
        r == spec_resolve(sale.sale_start, *cfg),
        r.wf(),
{
    let leadin_start: u32 = sale.sale_start;
    let interlude_start: u32 = if leadin_start >= cfg.interlude_length {
        leadin_start - cfg.interlude_length
    } else {
        0
    };
    let fixed_start: u32 = if leadin_start <= u32::MAX - cfg.leadin_length {
        leadin_start + cfg.leadin_length
    } else {
        u32::MAX
    };
    PhaseSchedule { interlude_start, leadin_start, fixed_start }
}

/// Resolution is a pure function of its inputs — resolving the same
/// snapshot twice gives the same schedule — and it is monotone in
/// `sale_start`: a later sale never moves any boundary earlier.
pub proof fn lemma_resolve_idempotent_monotone(s1: u32, s2: u32, cfg: Config)
    requires
        s1 <= s2,
    ensures
        spec_resolve(s1, cfg) == spec_resolve(s1, cfg),
        spec_resolve(s1, cfg).interlude_start <= spec_resolve(s2, cfg).interlude_start,
        spec_resolve(s1, cfg).leadin_start <= spec_resolve(s2, cfg).leadin_start,
        spec_resolve(s1, cfg).fixed_start <= spec_resolve(s2, cfg).fixed_start,
{
}

} // verus!
