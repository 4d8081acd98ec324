//! The handshake between the thread reading keys and the engine.
//!
//! The relay reads one key, sends it, then waits for the engine's
//! acknowledgment, which says whether the relay must stop. So at most one
//! key is ever in flight, and the relay is never reading the terminal while
//! the engine hands it over to another program.
use vstd::prelude::*;

verus! {

/// What the relay must do next.
#[derive(Clone, Copy, PartialEq, Eq, Structural)]
pub enum RelayAction {
    /// Read one key and send it to the engine.
    ReadKey,
    /// Wait for the engine's acknowledgment of the key sent.
    AwaitAck,
    /// End the relay.
    Stop,
}

/// One step of the relay as seen on its channels.
#[derive(Clone, Copy, PartialEq, Eq, Structural)]
pub enum RelayEvent {
    /// A key was sent to the engine.
    KeySent,
    /// The engine acknowledged the key; `true` asks the relay to stop.
    Ack(bool),
}

/// State of the relay's side of the handshake.
#[derive(Clone, Copy, PartialEq, Eq, Structural)]
pub struct RelayHandshake {
    /// A key was sent and is not yet acknowledged.
    pub in_flight: bool,
    /// The relay has ended.
    pub stopped: bool,
}

impl RelayHandshake {
    pub open spec fn start() -> RelayHandshake {
        RelayHandshake { in_flight: false, stopped: false }
    }

    pub open spec fn action_spec(self) -> RelayAction {
        if self.stopped {
            RelayAction::Stop
        } else if self.in_flight {
            RelayAction::AwaitAck
        } else {
            RelayAction::ReadKey
        }
    }

    /// Whether the handshake allows the event now.
    pub open spec fn permits(self, ev: RelayEvent) -> bool {
        match ev {
            RelayEvent::KeySent => self.action_spec() == RelayAction::ReadKey,
            RelayEvent::Ack(_) => self.action_spec() == RelayAction::AwaitAck,
        }
    }

    pub open spec fn after(self, ev: RelayEvent) -> RelayHandshake {
        match ev {
            RelayEvent::KeySent => RelayHandshake { in_flight: true, ..self },
            RelayEvent::Ack(quit) => RelayHandshake { in_flight: false, stopped: quit },
        }
    }

    pub fn new() -> (r: RelayHandshake)
        ensures
            r == RelayHandshake::start(),
    {
        RelayHandshake { in_flight: false, stopped: false }
    }

    pub fn next_action(&self) -> (a: RelayAction)
        ensures
            a == self.action_spec(),
    {
        if self.stopped {
            RelayAction::Stop
        } else if self.in_flight {
            RelayAction::AwaitAck
        } else {
            RelayAction::ReadKey
        }
    }

    /// Records that a key was sent to the engine.
    pub fn key_sent(&mut self)
        requires
            old(self).permits(RelayEvent::KeySent),
        ensures
            *final(self) == old(self).after(RelayEvent::KeySent),
    {
        self.in_flight = true;
    }

    /// Records the engine's acknowledgment.
    pub fn ack_received(&mut self, quit: bool)
        requires
            old(self).permits(RelayEvent::Ack(quit)),
        ensures
            *final(self) == old(self).after(RelayEvent::Ack(quit)),
    {
        self.in_flight = false;
        self.stopped = quit;
    }

    /// Records that the terminal input has ended: the relay stops.
    pub fn input_ended(&mut self)
        requires
            old(self).action_spec() == RelayAction::ReadKey,
        ensures
            final(self).action_spec() == RelayAction::Stop,
            !final(self).in_flight,
    {
        self.stopped = true;
    }
}

/// The handshake after the events, in order, from the start; `None` if
/// one of them was not allowed when it came.
pub open spec fn replay(evs: Seq<RelayEvent>) -> Option<RelayHandshake>
    decreases evs.len(),
{
    if evs.len() == 0 {
        Some(RelayHandshake::start())
    } else {
        match replay(evs.drop_last()) {
            Some(h) => if h.permits(evs.last()) {
                Some(h.after(evs.last()))
            } else {
                None
            },
            None => None,
        }
    }
}

/// Keys sent minus acknowledgments received.
pub open spec fn outstanding(evs: Seq<RelayEvent>) -> int
    decreases evs.len(),
{
    if evs.len() == 0 {
        0
    } else {
        outstanding(evs.drop_last()) + match evs.last() {
            RelayEvent::KeySent => 1int,
            RelayEvent::Ack(_) => -1int,
        }
    }
}

proof fn lemma_outstanding_is_in_flight(evs: Seq<RelayEvent>)
    requires
        replay(evs) is Some,
    ensures
        outstanding(evs) == if replay(evs)->Some_0.in_flight {
            1int
        } else {
            0int
        },
    decreases evs.len(),
{
    if evs.len() > 0 {
        lemma_outstanding_is_in_flight(evs.drop_last());
    }
}

proof fn lemma_replay_prefix(evs: Seq<RelayEvent>, k: int)
    requires
        replay(evs) is Some,
        0 <= k <= evs.len(),
    ensures
        replay(evs.take(k)) is Some,
    decreases evs.len(),
{
    if k == evs.len() {
        assert(evs.take(k) =~= evs);
    } else {
        assert(evs.drop_last().take(k) =~= evs.take(k));
        lemma_replay_prefix(evs.drop_last(), k);
    }
}

/// Along any run that keeps to the handshake, no key is ever sent before
/// the previous one was acknowledged: at every point at most one key is
/// unacknowledged, and never fewer than none.
pub proof fn lemma_at_most_one_key_in_flight(evs: Seq<RelayEvent>)
    requires
        replay(evs) is Some,
    ensures
        forall|k: int| 0 <= k <= evs.len() ==> 0 <= #[trigger] outstanding(evs.take(k)) <= 1,
{
    assert forall|k: int| 0 <= k <= evs.len() implies 0 <= #[trigger] outstanding(evs.take(k))
        <= 1 by {
        lemma_replay_prefix(evs, k);
        lemma_outstanding_is_in_flight(evs.take(k));
    }
}

} // verus!
