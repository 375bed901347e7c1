//! Shared data types: the notification channels a user can pick, the
//! subscription options, and the events the tracker publishes.

use vstd::prelude::*;

verus! {

/// Different events to which a user can subscribe to.
#[derive(Clone, Copy, Debug, PartialEq, Eq, Structural)]
pub enum Notifications {
    /// Notifications for interlude phase.
    InterludePhase(PhaseNotification),
    /// Notifications for leadin phase.
    LeadinPhaseStart(PhaseNotification),
    /// Notifications for fixed price phase.
    FixedPhaseStart(PhaseNotification),
    /// Whenever coretime is sold.
    CoretimeSale,
}

/// When, relative to a phase, a subscribed notification should arrive.
#[derive(Clone, Copy, Debug, PartialEq, Eq, Structural)]
pub enum PhaseNotification {
    /// Getting a notification `u64` seconds prior to phase start.
    PriorStart(u64),
    /// Getting a notification `u64` seconds prior to phase end.
    PriorEnd(u64),
}

/// Available options for receiving notification prior to an event happening.
#[derive(Clone, Copy, Debug, PartialEq, Eq, Structural)]
pub enum TimeOptions {
    /// Receive a notification day before the phase starts.
    DayAhead,
    /// Receive a notification 12 hours before the phase starts.
    HalfDayAhead,
    /// Receive a notification 6 hours before the phase starts.
    QuarterDayAhead,
    /// Receive a notification one hour before the phase starts.
    HourAhead,
}

impl TimeOptions {
    /// The head start of each option, in seconds.
    pub open spec fn spec_seconds(self) -> u64 {
        match self {
            TimeOptions::DayAhead => 86400u64,
            TimeOptions::HalfDayAhead => 43200u64,
            TimeOptions::QuarterDayAhead => 21600u64,
            TimeOptions::HourAhead => 3600u64,
        }
    }

    /// How many seconds before the event this option asks to be notified.
    pub fn seconds(&self) -> (r: u64)
        ensures
            r == self.spec_seconds(),
    {
        match self {
            TimeOptions::DayAhead => 86400,
            TimeOptions::HalfDayAhead => 43200,
            TimeOptions::QuarterDayAhead => 21600,
            TimeOptions::HourAhead => 3600,
        }
    }
}

/// The available methods to receive a notification.
#[derive(Clone, Copy, Debug, PartialEq, Eq, Structural)]
pub enum Notifier {
    /// User will receive notifications via their email.
    Email,
    /// User will receive notifications via their telegram.
    Telegram,
    /// If `Null` user will not receive notifications.
    Null,
}

/// The three phases of one sale.
#[derive(Clone, Copy, Debug, PartialEq, Eq, Structural)]
pub enum Phase {
    /// Pre-sale configuration window ending at `sale_start`.
    Interlude,
    /// Descending-price window beginning at `sale_start`.
    Leadin,
    /// Constant-price window following the leadin.
    Fixed,
}

/// One notification trigger, the unit the dispatcher publishes.
#[derive(Clone, Copy, Debug, PartialEq, Eq, Structural)]
pub enum NotificationEvent {
    /// The named phase of the sale identified by the second field (its
    /// `sale_start`) has begun.
    PhaseEntered(Phase, u32),
    /// The remaining cores of the sale identified by the second field
    /// crossed the low-inventory threshold; the first field is the count
    /// of cores still unsold.
    SaleProgress(u32, u32),
}

} // verus!
