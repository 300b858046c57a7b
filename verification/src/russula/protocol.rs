//! The decisions every Russula protocol instance makes, independent of the
//! concrete state machine: moving on, handling a message read from the
//! peer, recording the peer's state, and judging progress towards a target
//! state.

use crate::russula::error::RussulaError;
use crate::russula::event::{EventRecorder, EventType};
use crate::russula::network_utils::Msg;
use crate::russula::states::{
    from_msg, is_finished, matches_transition_msg, same_state, spec_matches_transition_msg,
    StateApi,
};
use vstd::prelude::*;

verus! {

/// Whether an instance reached the state it was polled towards.
#[derive(Debug, Clone, Copy, PartialEq, Eq, Structural)]
pub enum PollStatus {
    Ready,
    Pending,
}

/// What an instance does to make progress in its current state.
#[derive(Debug, Clone, Copy, PartialEq, Eq, Structural)]
pub enum RunAction {
    /// Send the own state to the peer, then read the peer's messages.
    NotifyAndAwait,
    /// Read the peer's messages.
    Await,
    /// Move on to the next state and send it to the peer.
    Advance,
    /// Send the own state to the peer.
    Notify,
    /// Start the workload process and record its id.
    StartWorkload,
    /// Stop the workload process with this id, then move on and send the
    /// new state.
    StopWorkload { pid: u32 },
    /// Send the own state, look at the workload process with this id, then
    /// move on and send the new state.
    CheckWorkload { pid: u32 },
}

/// What handling one read from the peer gave.
pub enum AwaitOutcome {
    /// The message was the awaited one: the instance moved to its next
    /// state, which it now has to send to the peer.
    Transitioned(Msg),
    /// The message was not the awaited one; keep reading.
    Continue(Msg),
    /// Nothing to read; send the own state to the peer and stop reading.
    Blocked,
    /// Reading failed.
    Failed(RussulaError),
}

/// Whether an error met while repeating the final notification is ignored:
/// network errors are, since the peer may already have closed the
/// connection; a malformed message is not.
pub open spec fn spec_ignored_when_done(e: RussulaError) -> bool {
    !(e is BadMsg)
}

/// Whether an error met while repeating the final notification is ignored.
pub fn ignored_when_done(e: &RussulaError) -> (r: bool)
    ensures
        r == spec_ignored_when_done(*e),
{
    match e {
        RussulaError::BadMsg { dbg: _ } => false,
        _ => true,
    }
}

/// The part every protocol instance has: its own state, the last state the
/// peer reported, and the counts of messages.
pub struct ProtocolCore<S, P> {
    state: S,
    peer_state: P,
    event_recorder: EventRecorder,
}

impl<S: StateApi, P: StateApi> ProtocolCore<S, P> {
    /// The own state.
    pub closed spec fn current(&self) -> S {
        self.state
    }

    /// The last state the peer reported.
    pub closed spec fn peer(&self) -> P {
        self.peer_state
    }

    /// The message counts.
    pub closed spec fn recorder(&self) -> EventRecorder {
        self.event_recorder
    }

    /// An instance in `state`, expecting the peer in `peer_state`, with no
    /// message counted.
    pub fn new(state: S, peer_state: P) -> (r: Self)
        ensures
            r.current() == state,
            r.peer() == peer_state,
            r.recorder().sent() == 0,
            r.recorder().received() == 0,
    {
        ProtocolCore { state, peer_state, event_recorder: EventRecorder::new() }
    }

    /// The own state.
    pub fn state(&self) -> (r: S)
        ensures
            r == self.current(),
    {
        self.state
    }

    /// The last state the peer reported.
    pub fn peer_state(&self) -> (r: P)
        ensures
            r == self.peer(),
    {
        self.peer_state
    }

    /// The message counts.
    pub fn event_recorder(&self) -> (r: &EventRecorder)
        ensures
            *r == self.recorder(),
    {
        &self.event_recorder
    }

    /// The bytes that notify the peer of the own state.
    pub fn notify_bytes(&self) -> (r: Vec<u8>)
        ensures
            r@ == self.current().bytes_spec(),
    {
        self.state.as_bytes()
    }

    /// Moves to the next state; the caller then notifies the peer.
    pub fn advance(&mut self)
        ensures
            final(self).current() == old(self).current().next_spec(),
            final(self).peer() == old(self).peer(),
            final(self).recorder() == old(self).recorder(),
    {
        self.state = self.state.next_state();
    }

    /// Replaces the own state.
    pub fn set_state(&mut self, s: S)
        ensures
            final(self).current() == s,
            final(self).peer() == old(self).peer(),
            final(self).recorder() == old(self).recorder(),
    {
        self.state = s;
    }

    /// Handles one read from the peer while the own state awaits a
    /// message. A message is counted; if it is the awaited one the instance
    /// moves to the next state. Nothing to read means the peer is to be
    /// notified of the own state; any other error ends the reading.
    pub fn on_recv(&mut self, received: Result<Msg, RussulaError>) -> (r: AwaitOutcome)
        requires
            old(self).current().step_spec() is AwaitNext,
            old(self).recorder().received() < u64::MAX,
        ensures
            final(self).peer() == old(self).peer(),
            match received {
                Ok(m) => {
                    &&& final(self).recorder().received() == old(self).recorder().received() + 1
                    &&& final(self).recorder().sent() == old(self).recorder().sent()
                    &&& if spec_matches_transition_msg(old(self).current(), m@.data) {
                        &&& r matches AwaitOutcome::Transitioned(m2) && m2@ == m@
                        &&& final(self).current() == old(self).current().next_spec()
                    } else {
                        &&& r matches AwaitOutcome::Continue(m2) && m2@ == m@
                        &&& final(self).current() == old(self).current()
                    }
                },
                Err(e) => {
                    &&& final(self).current() == old(self).current()
                    &&& final(self).recorder() == old(self).recorder()
                    &&& if e is NetworkBlocked {
                        r is Blocked
                    } else {
                        r == AwaitOutcome::Failed(e)
                    }
                },
            },
    {
        match received {
            Ok(msg) => {
                self.event_recorder.process(EventType::RecvMsg);
                if matches_transition_msg(&self.state, &msg) {
                    self.state = self.state.next_state();
                    AwaitOutcome::Transitioned(msg)
                } else {
                    AwaitOutcome::Continue(msg)
                }
            },
            Err(RussulaError::NetworkBlocked { dbg: _ }) => AwaitOutcome::Blocked,
            Err(e) => AwaitOutcome::Failed(e),
        }
    }

    /// Records the state the peer reported in `msg`; a message that carries
    /// no state of the peer is a `BadMsg` error and changes nothing.
    pub fn update_peer_state(&mut self, msg: &Msg) -> (r: Result<(), RussulaError>)
        ensures
            final(self).current() == old(self).current(),
            final(self).recorder() == old(self).recorder(),
            match P::decode_spec(msg@.data) {
                Some(p) => r is Ok && final(self).peer() == p,
                None => r matches Err(e) && e is BadMsg && final(self).peer() == old(self).peer(),
            },
    {
        match from_msg::<P>(msg) {
            Ok(p) => {
                self.peer_state = p;
                Ok(())
            },
            Err(e) => Err(e),
        }
    }

    /// Whether the own state differs from `target` on the wire, so that the
    /// instance still has to run towards it.
    pub fn needs_progress(&self, target: &S) -> (r: bool)
        ensures
            r == (self.current().bytes_spec() != target.bytes_spec()),
    {
        !same_state(&self.state, target)
    }

    /// Whether the own state is the final one.
    pub fn is_done_state(&self) -> (r: bool)
        ensures
            r == (self.current().step_spec() is Finished),
    {
        is_finished(&self.state)
    }

    /// Whether the instance is at `target`.
    pub fn poll_status(&self, target: &S) -> (r: PollStatus)
        ensures
            (r == PollStatus::Ready) == (self.current().bytes_spec() == target.bytes_spec()),
    {
        if same_state(&self.state, target) {
            PollStatus::Ready
        } else {
            PollStatus::Pending
        }
    }
}

/// Whether every instance is at `target`.
pub open spec fn spec_all_at_state<S: StateApi>(states: Seq<S>, target: S) -> bool {
    forall|i: int| 0 <= i < states.len() ==> (#[trigger] states[i]).bytes_spec() == target.bytes_spec()
}

/// Whether every instance is at `target`, as a coordinator asks of all its
/// workers' connections.
pub fn all_at_state<S: StateApi>(states: &Vec<S>, target: &S) -> (r: bool)
    ensures
        r == spec_all_at_state(states@, *target),
{
    let mut i: usize = 0;
    while i < states.len()
        invariant
            i <= states@.len(),
            forall|j: int| 0 <= j < i ==> (#[trigger] states@[j]).bytes_spec() == target.bytes_spec(),
        decreases states@.len() - i,
    {
        if !same_state(&states[i], target) {
            return false;
        }
        i = i + 1;
    }
    true
}

} // verus!
