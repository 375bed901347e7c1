//! Dispatch planning: from the registered users and one notification
//! event, the fanout plan — which user is to be notified through which
//! sink.
//!
//! The sinks themselves (mail transport, messaging gateway) live outside
//! the library; they receive the plan and perform each delivery, logging
//! and skipping per-user failures without aborting the fanout.

use vstd::prelude::*;

use crate::types::{NotificationEvent, Notifier};
use crate::users::{User, UserView};

verus! {

/// The available delivery sinks.
#[derive(Clone, Copy, Debug, PartialEq, Eq, Structural)]
pub enum Sink {
    /// Delivers to the user's email address.
    EmailSink,
    /// Delivers to the user's telegram handle.
    MessengerSink,
    /// Discards the event; selected by users who opted out.
    NullSink,
}

/// The sink serving each notification channel.
pub open spec fn spec_sink_for(n: Notifier) -> Sink {
    match n {
        Notifier::Email => Sink::EmailSink,
        Notifier::Telegram => Sink::MessengerSink,
        Notifier::Null => Sink::NullSink,
    }
}

/// Select the sink serving a user's chosen notification channel.
pub fn sink_for(n: &Notifier) -> (s: Sink)
    ensures
        s == spec_sink_for(*n),
{
    match n {
        Notifier::Email => Sink::EmailSink,
        Notifier::Telegram => Sink::MessengerSink,
        Notifier::Null => Sink::NullSink,
    }
}

/// One planned delivery: the event, the user it goes to, and the sink
/// that carries it.
#[derive(Clone, Copy, Debug, PartialEq, Eq, Structural)]
pub struct Delivery {
    /// Primary key of the user to notify.
    pub user_id: u32,
    /// The sink serving the user's chosen channel.
    pub sink: Sink,
    /// The event to deliver.
    pub event: NotificationEvent,
}

/// The fanout plan an event owes a user list: one delivery per user, in
/// store order, except the users who opted out of notifications.
pub open spec fn spec_plan(users: Seq<UserView>, event: NotificationEvent) -> Seq<Delivery>
    decreases users.len(),
{
    if users.len() == 0 {
        Seq::<Delivery>::empty()
    } else {
        (if users[0].notifier != Notifier::Null {
            seq![
                Delivery {
                    user_id: users[0].id,
                    sink: spec_sink_for(users[0].notifier),
                    event,
                },
            ]
        } else {
            Seq::<Delivery>::empty()
        }) + spec_plan(users.drop_first(), event)
    }
}

proof fn lemma_spec_plan_push(users: Seq<UserView>, u: UserView, event: NotificationEvent)
    ensures
        spec_plan(users.push(u), event) == spec_plan(users, event) + (if u.notifier
            != Notifier::Null {
            seq![Delivery { user_id: u.id, sink: spec_sink_for(u.notifier), event }]
        } else {
            Seq::<Delivery>::empty()
        }),
    decreases users.len(),
{
    let tail = if u.notifier != Notifier::Null {
        seq![Delivery { user_id: u.id, sink: spec_sink_for(u.notifier), event }]
    } else {
        Seq::<Delivery>::empty()
    };
    if users.len() == 0 {
        assert(users.push(u).drop_first() =~= Seq::<UserView>::empty());
        assert(users.push(u)[0] == u);
        assert(spec_plan(Seq::<UserView>::empty(), event) == Seq::<Delivery>::empty());
        assert(spec_plan(users.push(u), event) =~= spec_plan(users, event) + tail);
    } else {
        assert(users.push(u).drop_first() =~= users.drop_first().push(u));
        lemma_spec_plan_push(users.drop_first(), u, event);
        assert(users.push(u)[0] == users[0]);
        assert(spec_plan(users.push(u), event) =~= spec_plan(users, event) + tail);
    }
}

/// Lay out the deliveries one event asks for: one per registered user in
/// store order, each through the sink serving the user's channel, with
/// the users who opted out left out.
pub fn plan_dispatch(users: &Vec<User>, event: &NotificationEvent) -> (plan: Vec<Delivery>)
    ensures
        plan@ == spec_plan(users.deep_view(), *event),
{
    let mut plan: Vec<Delivery> = Vec::new();
    let mut i: usize = 0;
    while i < users.len()
        invariant
            0 <= i <= users.len(),
            plan@ == spec_plan(users.deep_view().take(i as int), *event),
        decreases users.len() - i,
    {
        match users[i].notifier {
            Notifier::Null => {},
            _ => {
                plan.push(
                    Delivery {
                        user_id: users[i].id,
                        sink: sink_for(&users[i].notifier),
                        event: *event,
                    },
                );
            },
        }
        i += 1;
        proof {
            let uv = users.deep_view();
            assert(uv[i - 1] == users@[i - 1]@);
            assert(uv.take(i as int) =~= uv.take(i - 1).push(uv[i - 1]));
            lemma_spec_plan_push(uv.take(i - 1), uv[i - 1], *event);
            assert(plan@ =~= spec_plan(uv.take(i as int), *event));
        }
    }
    proof {
        assert(users.deep_view().take(users@.len() as int) =~= users.deep_view());
    }
    plan
}

} // verus!
