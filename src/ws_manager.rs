//! The decisions of the streaming connection's supervisor.
//!
//! The supervisor owns the subscription registry, the connection state and
//! the reconnect backoff. Whoever drives the socket reports what happened
//! (a message, a lost connection, a reconnect that worked or failed) and
//! performs what it is told: deliver to these listeners, sleep this long,
//! send these frames.
use crate::error::Error;
use crate::message::Message;
use crate::registry::{drain_frames, frames_view, ids_with_key, resubscribe_frames, Entry, Registry};
use crate::topic::Subscription;
use vstd::prelude::*;

verus! {

/// Seconds between keep-alive pings.
pub const SEND_PING_INTERVAL: u64 = 50;

/// The first delay before a reconnect attempt, in seconds.
pub const INITIAL_BACKOFF_SECS: u64 = 1;

/// The longest delay before a reconnect attempt, in seconds.
pub const MAX_BACKOFF_SECS: u64 = 60;

#[derive(Clone, Copy, Debug, PartialEq, Eq, Structural)]
pub enum ConnectionState {
    Connecting,
    Connected,
    Disconnected,
    ShuttingDown,
}

/// The delay after one more failed attempt: doubled, up to the ceiling.
pub open spec fn next_backoff(delay: u64) -> u64 {
    if 2 * delay < MAX_BACKOFF_SECS {
        (2 * delay) as u64
    } else {
        MAX_BACKOFF_SECS
    }
}

/// The delay after `n` failed attempts in a row.
pub open spec fn backoff_after(n: nat) -> u64
    decreases n,
{
    if n == 0 {
        INITIAL_BACKOFF_SECS
    } else {
        next_backoff(backoff_after((n - 1) as nat))
    }
}

pub open spec fn power_of_two(n: nat) -> nat
    decreases n,
{
    if n == 0 {
        1
    } else {
        2 * power_of_two((n - 1) as nat)
    }
}

/// The backoff starts at one second and doubles with each failed attempt
/// until it reaches the ceiling, where it stays.
pub proof fn lemma_backoff_schedule(n: nat)
    ensures
        backoff_after(n) == if power_of_two(n) < MAX_BACKOFF_SECS {
            power_of_two(n)
        } else {
            MAX_BACKOFF_SECS as nat
        },
    decreases n,
{
    if n > 0 {
        lemma_backoff_schedule((n - 1) as nat);
    }
}

/// The delay never leaves `[1, 60]`, and once at the ceiling it stays there.
pub proof fn lemma_backoff_bounded(n: nat)
    ensures
        INITIAL_BACKOFF_SECS <= backoff_after(n) <= MAX_BACKOFF_SECS,
        backoff_after(n) == MAX_BACKOFF_SECS ==> backoff_after(n + 1) == MAX_BACKOFF_SECS,
    decreases n,
{
    if n > 0 {
        lemma_backoff_bounded((n - 1) as nat);
    }
}

/// The state a step moves to: `next`, except that a shut-down supervisor
/// stays shut down.
pub open spec fn moved_to(current: ConnectionState, next: ConnectionState) -> ConnectionState {
    if current == ConnectionState::ShuttingDown {
        ConnectionState::ShuttingDown
    } else {
        next
    }
}

/// Shutting down is final: no step moves a shut-down supervisor to another
/// state, so it never reports itself running again.
pub proof fn lemma_shutdown_is_final(next: ConnectionState)
    ensures
        moved_to(ConnectionState::ShuttingDown, next) == ConnectionState::ShuttingDown,
{
}

/// The supervisor's state: connection, backoff, and registry.
pub struct WsManager<L> {
    state: ConnectionState,
    backoff_delay: u64,
    failed_attempts: Ghost<nat>,
    reconnect: bool,
    registry: Registry<L>,
}

impl<L> WsManager<L> {
    pub closed spec fn state(&self) -> ConnectionState {
        self.state
    }

    pub closed spec fn backoff(&self) -> u64 {
        self.backoff_delay
    }

    /// Failed reconnect attempts since the last connection or message.
    pub closed spec fn failed_attempts(&self) -> nat {
        self.failed_attempts@
    }

    pub closed spec fn reconnect_enabled(&self) -> bool {
        self.reconnect
    }

    /// The live subscriptions; see [`Registry`].
    pub closed spec fn subscriptions(&self) -> Seq<Entry> {
        self.registry@
    }

    pub closed spec fn listeners(&self) -> Seq<L> {
        self.registry.listeners()
    }

    pub closed spec fn next_id(&self) -> u32 {
        self.registry.next_id()
    }

    pub closed spec fn wf(&self) -> bool {
        &&& self.registry.wf()
        &&& INITIAL_BACKOFF_SECS <= self.backoff_delay <= MAX_BACKOFF_SECS
        &&& self.backoff_delay == backoff_after(self.failed_attempts@)
    }

    /// A supervisor for a connection that has just been opened.
    pub fn new(reconnect: bool) -> (r: WsManager<L>)
        ensures
            r.wf(),
            r.state() == ConnectionState::Connected,
            r.backoff() == INITIAL_BACKOFF_SECS,
            r.failed_attempts() == 0,
            r.reconnect_enabled() == reconnect,
            r.subscriptions() == Seq::<Entry>::empty(),
            r.next_id() == 0,
    {
        WsManager {
            state: ConnectionState::Connected,
            backoff_delay: INITIAL_BACKOFF_SECS,
            failed_attempts: Ghost(0),
            reconnect,
            registry: Registry::new(),
        }
    }

    /// Whether the supervisor has not been shut down.
    pub fn is_running(&self) -> (r: bool)
        ensures
            r == (self.state() != ConnectionState::ShuttingDown),
    {
        self.state != ConnectionState::ShuttingDown
    }

    pub fn get_subscription_count(&self) -> (r: usize)
        ensures
            r == self.subscriptions().len(),
    {
        self.registry.get_subscription_count()
    }

    /// The state of the connection.
    pub fn connection_state(&self) -> (r: ConnectionState)
        ensures
            r == self.state(),
    {
        self.state
    }

    /// The current reconnect delay, in seconds.
    pub fn backoff_delay(&self) -> (r: u64)
        ensures
            r == self.backoff(),
    {
        self.backoff_delay
    }

    /// Whether another subscription id can be handed out.
    pub fn can_add_subscription(&self) -> (r: bool)
        ensures
            r == (self.next_id() < u32::MAX),
    {
        self.registry.next_id_below_max()
    }

    /// Adds a listener; see [`Registry::add_subscription`].
    pub fn add_subscription(&mut self, sub: &Subscription, listener: L) -> (r: Result<
        (u32, Option<Vec<u8>>),
        Error,
    >)
        requires
            old(self).wf(),
            old(self).next_id() < u32::MAX,
        ensures
            final(self).wf(),
            final(self).state() == old(self).state(),
            final(self).backoff() == old(self).backoff(),
            final(self).failed_attempts() == old(self).failed_attempts(),
            final(self).reconnect_enabled() == old(self).reconnect_enabled(),
            r is Err <==> (sub.is_user_events() && crate::registry::has_key(
                old(self).subscriptions(),
                sub.topic_key(),
            )),
            r is Err ==> r->Err_0 == Error::UserEvents && final(self).subscriptions()
                == old(self).subscriptions() && final(self).listeners() == old(self).listeners()
                && final(self).next_id() == old(self).next_id(),
            r matches Ok((id, frame)) ==> {
                &&& id == old(self).next_id()
                &&& !crate::registry::has_id(old(self).subscriptions(), id)
                &&& final(self).next_id() == id + 1
                &&& final(self).subscriptions() == old(self).subscriptions().push(
                    (id, sub.topic_key(), sub.json()),
                )
                &&& final(self).listeners() == old(self).listeners().push(listener)
                &&& (frame is None <==> crate::registry::has_key(
                    old(self).subscriptions(),
                    sub.topic_key(),
                ))
                &&& (frame matches Some(f) ==> f@ == crate::topic::subscribe_frame(sub.json()))
            },
    {
        self.registry.add_subscription(sub, listener)
    }

    /// Removes a listener; see [`Registry::remove_subscription`].
    pub fn remove_subscription(&mut self, subscription_id: u32) -> (r: Result<
        Option<Vec<u8>>,
        Error,
    >)
        requires
            old(self).wf(),
        ensures
            final(self).wf(),
            final(self).state() == old(self).state(),
            final(self).backoff() == old(self).backoff(),
            final(self).failed_attempts() == old(self).failed_attempts(),
            final(self).reconnect_enabled() == old(self).reconnect_enabled(),
            r is Err <==> !crate::registry::has_id(old(self).subscriptions(), subscription_id),
            final(self).next_id() == old(self).next_id(),
            r is Err ==> r->Err_0 == Error::SubscriptionNotFound && final(self).subscriptions()
                == old(self).subscriptions() && final(self).listeners() == old(self).listeners(),
            r matches Ok(frame) ==> exists|i: int|
                {
                    &&& 0 <= i < old(self).subscriptions().len()
                    &&& (#[trigger] old(self).subscriptions()[i]).0 == subscription_id
                    &&& final(self).subscriptions() == old(self).subscriptions().remove(i)
                    &&& final(self).listeners() == old(self).listeners().remove(i)
                    &&& (frame is None <==> crate::registry::has_key(
                        final(self).subscriptions(),
                        old(self).subscriptions()[i].1,
                    ))
                    &&& (frame matches Some(f) ==> f@ == crate::topic::unsubscribe_frame(
                        old(self).subscriptions()[i].2,
                    ))
                },
    {
        let r = self.registry.remove_subscription(subscription_id);
        proof {
            if r is Ok {
                let i = choose|i: int|
                    {
                        &&& 0 <= i < old(self).registry@.len()
                        &&& (#[trigger] old(self).registry@[i]).0 == subscription_id
                        &&& self.registry@ == old(self).registry@.remove(i)
                        &&& self.registry.listeners() == old(self).registry.listeners().remove(i)
                        &&& (r->Ok_0 is None <==> crate::registry::has_key(
                            self.registry@,
                            old(self).registry@[i].1,
                        ))
                        &&& (r->Ok_0 matches Some(f) ==> f@ == crate::topic::unsubscribe_frame(
                            old(self).registry@[i].2,
                        ))
                    };
                assert(old(self).subscriptions()[i].0 == subscription_id);
            }
        }
        r
    }

    /// The ids of all live subscriptions, oldest first.
    pub fn subscription_ids(&self) -> (r: Vec<u32>)
        ensures
            r@ == self.subscriptions().map_values(|e: Entry| e.0),
    {
        self.registry.subscription_ids()
    }

    /// The listener of a subscription.
    pub fn listener(&self, subscription_id: u32) -> (r: Option<&L>)
        ensures
            r is Some <==> crate::registry::has_id(self.subscriptions(), subscription_id),
            r matches Some(l) ==> exists|i: int|
                0 <= i < self.subscriptions().len() && (#[trigger] self.subscriptions()[i]).0
                    == subscription_id && *l == self.listeners()[i],
    {
        let r = self.registry.listener(subscription_id);
        proof {
            self.registry.lemma_listeners_len();
            if r is Some {
                let i = choose|i: int|
                    0 <= i < self.registry@.len() && (#[trigger] self.registry@[i]).0
                        == subscription_id && *r->0 == self.registry.listeners()[i];
                assert(self.subscriptions()[i].0 == subscription_id);
                assert(*r->0 == self.listeners()[i]);
            }
        }
        r
    }

    fn move_to(&mut self, next: ConnectionState)
        ensures
            final(self).state == moved_to(old(self).state, next),
            final(self).backoff_delay == old(self).backoff_delay,
            final(self).failed_attempts == old(self).failed_attempts,
            final(self).reconnect == old(self).reconnect,
            final(self).registry == old(self).registry,
    {
        if self.state != ConnectionState::ShuttingDown {
            self.state = next;
        }
    }

    /// Ids of live subscriptions are unique.
    pub proof fn lemma_ids_unique(&self)
        requires
            self.wf(),
        ensures
            forall|i: int, j: int|
                0 <= i < j < self.subscriptions().len() ==> (#[trigger] self.subscriptions()[i]).0
                    != (#[trigger] self.subscriptions()[j]).0,
    {
        self.registry.lemma_ids_unique();
    }

    /// A message arrived: the backoff is reset and the message goes to the
    /// listeners of its topic, oldest first.
    pub fn on_message(&mut self, message: &Message) -> (r: Vec<u32>)
        requires
            old(self).wf(),
        ensures
            final(self).wf(),
            final(self).backoff() == INITIAL_BACKOFF_SECS,
            final(self).failed_attempts() == 0,
            final(self).state() == old(self).state(),
            final(self).subscriptions() == old(self).subscriptions(),
            final(self).listeners() == old(self).listeners(),
            final(self).next_id() == old(self).next_id(),
            final(self).reconnect_enabled() == old(self).reconnect_enabled(),
            r@ == match message.topic() {
                Some(k) => ids_with_key(old(self).subscriptions(), k),
                None => Seq::empty(),
            },
    {
        self.backoff_delay = INITIAL_BACKOFF_SECS;
        self.failed_attempts = Ghost(0);
        self.registry.route(message)
    }

    /// The connection was lost. Every listener is told (the returned ids get
    /// a no-data notice); with reconnection enabled the caller sleeps for
    /// the returned delay and tries again, otherwise it stops.
    pub fn on_disconnect(&mut self) -> (r: (Vec<u32>, Option<u64>))
        requires
            old(self).wf(),
        ensures
            final(self).wf(),
            final(self).state() == moved_to(old(self).state(), ConnectionState::Disconnected),
            final(self).backoff() == old(self).backoff(),
            final(self).failed_attempts() == old(self).failed_attempts(),
            final(self).subscriptions() == old(self).subscriptions(),
            final(self).listeners() == old(self).listeners(),
            final(self).next_id() == old(self).next_id(),
            final(self).reconnect_enabled() == old(self).reconnect_enabled(),
            r.0@ == old(self).subscriptions().map_values(|e: Entry| e.0),
            r.1 == if old(self).reconnect_enabled() && old(self).state()
                != ConnectionState::ShuttingDown {
                Some(old(self).backoff())
            } else {
                None
            },
    {
        let delay = if self.reconnect && self.state != ConnectionState::ShuttingDown {
            Some(self.backoff_delay)
        } else {
            None
        };
        self.move_to(ConnectionState::Disconnected);
        let ids = self.registry.subscription_ids();
        (ids, delay)
    }

    /// A reconnect attempt succeeded: the backoff is reset and the returned
    /// frames, which restore every live topic, are sent before anything
    /// else is read.
    pub fn on_reconnect_success(&mut self) -> (r: Vec<Vec<u8>>)
        requires
            old(self).wf(),
        ensures
            final(self).wf(),
            final(self).state() == moved_to(old(self).state(), ConnectionState::Connected),
            final(self).backoff() == INITIAL_BACKOFF_SECS,
            final(self).failed_attempts() == 0,
            final(self).subscriptions() == old(self).subscriptions(),
            final(self).listeners() == old(self).listeners(),
            final(self).next_id() == old(self).next_id(),
            final(self).reconnect_enabled() == old(self).reconnect_enabled(),
            frames_view(r@) == resubscribe_frames(old(self).subscriptions()),
    {
        self.move_to(ConnectionState::Connected);
        self.backoff_delay = INITIAL_BACKOFF_SECS;
        self.failed_attempts = Ghost(0);
        self.registry.resubscribe()
    }

    /// A reconnect attempt begins.
    pub fn on_reconnect_attempt(&mut self)
        requires
            old(self).wf(),
        ensures
            final(self).wf(),
            final(self).state() == moved_to(old(self).state(), ConnectionState::Connecting),
            final(self).backoff() == old(self).backoff(),
            final(self).failed_attempts() == old(self).failed_attempts(),
            final(self).subscriptions() == old(self).subscriptions(),
            final(self).listeners() == old(self).listeners(),
            final(self).next_id() == old(self).next_id(),
            final(self).reconnect_enabled() == old(self).reconnect_enabled(),
    {
        self.move_to(ConnectionState::Connecting);
    }

    /// A reconnect attempt failed: the delay before the next one doubles,
    /// up to the ceiling, and is returned.
    pub fn on_reconnect_failure(&mut self) -> (r: u64)
        requires
            old(self).wf(),
        ensures
            final(self).wf(),
            final(self).state() == moved_to(old(self).state(), ConnectionState::Disconnected),
            final(self).backoff() == next_backoff(old(self).backoff()),
            final(self).failed_attempts() == old(self).failed_attempts() + 1,
            final(self).backoff() == backoff_after(final(self).failed_attempts()),
            final(self).subscriptions() == old(self).subscriptions(),
            final(self).listeners() == old(self).listeners(),
            final(self).next_id() == old(self).next_id(),
            final(self).reconnect_enabled() == old(self).reconnect_enabled(),
            r == final(self).backoff(),
    {
        self.move_to(ConnectionState::Disconnected);
        self.failed_attempts = Ghost(self.failed_attempts@ + 1);
        self.backoff_delay = if self.backoff_delay < MAX_BACKOFF_SECS / 2 {
            2 * self.backoff_delay
        } else {
            MAX_BACKOFF_SECS
        };
        self.backoff_delay
    }

    /// Shuts down: every subscription is removed, and the returned
    /// unsubscribe frames cancel each topic on the wire.
    pub fn shutdown(&mut self) -> (r: Vec<Vec<u8>>)
        requires
            old(self).wf(),
        ensures
            final(self).wf(),
            final(self).state() == ConnectionState::ShuttingDown,
            final(self).subscriptions() == Seq::<Entry>::empty(),
            final(self).next_id() == old(self).next_id(),
            frames_view(r@) == drain_frames(
                old(self).subscriptions(),
                old(self).subscriptions().len(),
            ),
    {
        self.state = ConnectionState::ShuttingDown;
        self.registry.drain()
    }
}

} // verus!
