//! The life of a live session, as a machine from state and event to next
//! state and action.
//!
//! The transport performs the actions and reports the events: that the
//! channel is open, that the heartbeat timer fired, what the peer sent, and
//! whether a send failed. The machine decides what is sent and when the
//! session ends.

use vstd::prelude::*;
use vstd::string::StringExecFns;
use crate::numeric::{decimal, decimal_text};

verus! {

/// The seconds between two heartbeats.
pub const HEARTBEAT_SECONDS: u64 = 5;

/// Where a session stands.
#[derive(Clone, Copy, Debug, PartialEq, Eq, Structural)]
pub enum Phase {
    /// The channel is not open yet; nothing has been sent.
    Opening,
    /// The snapshot has been sent; heartbeats follow.
    Live,
    /// The session has ended.
    Closed,
}

/// The state of a session.
#[derive(Clone, Copy, Debug, PartialEq, Eq, Structural)]
pub struct Session {
    /// Where the session stands.
    pub phase: Phase,
    /// The number of the next heartbeat.
    pub beats: u64,
}

/// What the transport reports to the machine.
#[derive(Clone, Copy, Debug, PartialEq, Eq, Structural)]
pub enum Event {
    /// The channel is open.
    Opened,
    /// The heartbeat timer fired.
    Tick,
    /// The peer sent a frame that asks to close.
    CloseFrame,
    /// The peer sent any other frame.
    OtherFrame,
    /// The peer's stream ended.
    StreamEnded,
    /// Reading from the peer failed.
    ReadFailed,
    /// Sending to the peer failed.
    SendFailed,
}

/// What the machine asks the transport to do.
#[derive(Clone, Copy, Debug, PartialEq, Eq, Structural)]
pub enum Action {
    /// Send the snapshot.
    SendSnapshot,
    /// Send the heartbeat with the given number.
    SendHeartbeat(u64),
    /// Do nothing and wait for the next event.
    Wait,
    /// End the session.
    Stop,
}

impl Session {
    /// The state of a session before its channel is open.
    pub open spec fn fresh() -> Session {
        Session { phase: Phase::Opening, beats: 0 }
    }

    /// The state after an event.
    ///
    /// Opening sends the snapshot. While the session is live, a tick sends
    /// the next heartbeat; a close frame, the end of the stream and any
    /// failure end the session; other frames are ignored. Nothing happens in
    /// a closed session. A session whose heartbeat counter is exhausted ends
    /// at the next tick.
    pub open spec fn next(self, event: Event) -> Session {
        match (self.phase, event) {
            (Phase::Opening, Event::Opened) => Session { phase: Phase::Live, beats: 0 },
            (Phase::Opening, Event::Tick) => self,
            (Phase::Opening, Event::OtherFrame) => self,
            (Phase::Opening, _) => Session { phase: Phase::Closed, beats: self.beats },
            (Phase::Live, Event::Tick) => if self.beats < u64::MAX {
                Session { phase: Phase::Live, beats: (self.beats + 1) as u64 }
            } else {
                Session { phase: Phase::Closed, beats: self.beats }
            },
            (Phase::Live, Event::OtherFrame) => self,
            (Phase::Live, Event::Opened) => self,
            (Phase::Live, _) => Session { phase: Phase::Closed, beats: self.beats },
            (Phase::Closed, _) => self,
        }
    }

    /// The action that an event calls for.
    pub open spec fn action(self, event: Event) -> Action {
        match (self.phase, event) {
            (Phase::Opening, Event::Opened) => Action::SendSnapshot,
            (Phase::Opening, Event::Tick) => Action::Wait,
            (Phase::Opening, Event::OtherFrame) => Action::Wait,
            (Phase::Opening, _) => Action::Stop,
            (Phase::Live, Event::Tick) => if self.beats < u64::MAX {
                Action::SendHeartbeat(self.beats)
            } else {
                Action::Stop
            },
            (Phase::Live, Event::OtherFrame) => Action::Wait,
            (Phase::Live, Event::Opened) => Action::Wait,
            (Phase::Live, _) => Action::Stop,
            (Phase::Closed, _) => Action::Stop,
        }
    }

    /// A session before its channel is open.
    pub fn new() -> (s: Session)
        ensures
            s == Session::fresh(),
    {
        Session { phase: Phase::Opening, beats: 0 }
    }

    /// Whether the session has ended.
    pub fn is_closed(&self) -> (r: bool)
        ensures
            r == (self.phase == Phase::Closed),
    {
        match self.phase {
            Phase::Closed => true,
            _ => false,
        }
    }

    /// Takes one event: moves to the next state and returns what to do.
    pub fn step(&mut self, event: Event) -> (a: Action)
        ensures
            *final(self) == old(self).next(event),
            a == old(self).action(event),
    {
        match self.phase {
            Phase::Opening => match event {
                Event::Opened => {
                    self.phase = Phase::Live;
                    self.beats = 0;
                    Action::SendSnapshot
                },
                Event::Tick => Action::Wait,
                Event::OtherFrame => Action::Wait,
                _ => {
                    self.phase = Phase::Closed;
                    Action::Stop
                },
            },
            Phase::Live => match event {
                Event::Tick => {
                    if self.beats < u64::MAX {
                        let n = self.beats;
                        self.beats = n + 1;
                        Action::SendHeartbeat(n)
                    } else {
                        self.phase = Phase::Closed;
                        Action::Stop
                    }
                },
                Event::OtherFrame => Action::Wait,
                Event::Opened => Action::Wait,
                _ => {
                    self.phase = Phase::Closed;
                    Action::Stop
                },
            },
            Phase::Closed => Action::Stop,
        }
    }
}

/// Whether an action sends a message.
pub open spec fn is_send(a: Action) -> bool {
    a is SendSnapshot || a is SendHeartbeat
}

/// The messages that a session sends on a sequence of events, in order.
pub open spec fn sends(s: Session, events: Seq<Event>) -> Seq<Action>
    decreases events.len(),
{
    if events.len() == 0 {
        Seq::empty()
    } else if is_send(s.action(events[0])) {
        seq![s.action(events[0])] + sends(s.next(events[0]), events.skip(1))
    } else {
        sends(s.next(events[0]), events.skip(1))
    }
}

/// The `j`-th message of any session: the snapshot first, then the
/// heartbeats numbered from zero.
pub open spec fn expected_send(j: int) -> Action {
    if j == 0 {
        Action::SendSnapshot
    } else {
        Action::SendHeartbeat((j - 1) as u64)
    }
}

/// The text of a heartbeat.
pub open spec fn heartbeat_text(n: u64) -> Seq<char> {
    "Heartbeat #"@ + decimal_text(n as nat)
}

/// Writes the text of the heartbeat with the number `n`.
pub fn heartbeat(n: u64) -> (out: String)
    ensures
        out@ == heartbeat_text(n),
{
    let mut out = String::from_str("Heartbeat #");
    let number = decimal(n);
    out.append(number.as_str());
    out
}

/// A closed session sends nothing.
pub proof fn lemma_closed_sends_nothing(s: Session, events: Seq<Event>)
    requires
        s.phase == Phase::Closed,
    ensures
        sends(s, events).len() == 0,
    decreases events.len(),
{
    if events.len() > 0 {
        lemma_closed_sends_nothing(s.next(events[0]), events.skip(1));
    }
}

/// A live session sends heartbeats alone, numbered on from its counter.
pub proof fn lemma_live_sends_heartbeats(s: Session, events: Seq<Event>)
    requires
        s.phase == Phase::Live,
    ensures
        forall|j: int|
            0 <= j < sends(s, events).len() ==> s.beats + j < u64::MAX && #[trigger] sends(
                s,
                events,
            )[j] == Action::SendHeartbeat((s.beats + j) as u64),
    decreases events.len(),
{
    if events.len() > 0 {
        let t = s.next(events[0]);
        let rest = sends(t, events.skip(1));
        if t.phase == Phase::Live {
            lemma_live_sends_heartbeats(t, events.skip(1));
        } else {
            lemma_closed_sends_nothing(t, events.skip(1));
        }
        assert forall|j: int| 0 <= j < sends(s, events).len() implies s.beats + j < u64::MAX
            && #[trigger] sends(s, events)[j] == Action::SendHeartbeat((s.beats + j) as u64) by {
            if is_send(s.action(events[0])) {
                if j > 0 {
                    assert(sends(s, events)[j] == rest[j - 1]);
                }
            } else {
                assert(sends(s, events)[j] == rest[j]);
            }
        }
    }
}

/// Whatever the transport reports and in whatever order, a session sends the
/// snapshot first and once, and after it the heartbeats numbered 0, 1, 2 and
/// so on, each one higher than the one before.
pub proof fn law_snapshot_precedes_heartbeats(events: Seq<Event>)
    ensures
        forall|j: int|
            0 <= j < sends(Session::fresh(), events).len() ==> #[trigger] sends(
                Session::fresh(),
                events,
            )[j] == expected_send(j),
{
    lemma_opening_sends_in_order(Session::fresh(), events);
}

/// The statement of `law_snapshot_precedes_heartbeats` for any session whose
/// channel is not open yet.
pub proof fn lemma_opening_sends_in_order(s: Session, events: Seq<Event>)
    requires
        s.phase == Phase::Opening,
    ensures
        forall|j: int|
            0 <= j < sends(s, events).len() ==> #[trigger] sends(s, events)[j] == expected_send(j),
    decreases events.len(),
{
    if events.len() > 0 {
        let t = s.next(events[0]);
        let rest = sends(t, events.skip(1));
        if t.phase == Phase::Opening {
            lemma_opening_sends_in_order(t, events.skip(1));
        } else if t.phase == Phase::Live {
            lemma_live_sends_heartbeats(t, events.skip(1));
        } else {
            lemma_closed_sends_nothing(t, events.skip(1));
        }
        assert forall|j: int| 0 <= j < sends(s, events).len() implies #[trigger] sends(
            s,
            events,
        )[j] == expected_send(j) by {
            if is_send(s.action(events[0])) {
                if j > 0 {
                    assert(sends(s, events)[j] == rest[j - 1]);
                }
            } else {
                assert(sends(s, events)[j] == rest[j]);
            }
        }
    }
}

} // verus!
