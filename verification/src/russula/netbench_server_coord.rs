//! An earlier, smaller netbench server protocol: the coordinator side.

use crate::russula::error::RussulaError;
use crate::russula::netbench_server_worker::{
    legacy_worker_state_bytes, WorkerNetbenchServerState,
};
use crate::russula::protocol::{PollStatus, RunAction};
use crate::russula::states::{
    json_name, json_name_bytes, StateApi, StepSpec, TransitionStep,
    unknown_state_error,
};
use crate::text::bytes_eq;
use vstd::prelude::*;
use vstd::string::*;

verus! {

/// The coordinator's states, in the order it goes through them.
#[derive(Debug, Clone, Copy, PartialEq, Eq, Structural)]
pub enum CoordNetbenchServerState {
    CheckPeer,
    Ready,
    RunPeer,
    KillPeer,
    Done,
}

/// The variant's name, as it appears on the wire.
pub open spec fn legacy_coord_state_name(s: CoordNetbenchServerState) -> Seq<char> {
    match s {
        CoordNetbenchServerState::CheckPeer => "CheckPeer"@,
        CoordNetbenchServerState::Ready => "Ready"@,
        CoordNetbenchServerState::RunPeer => "RunPeer"@,
        CoordNetbenchServerState::KillPeer => "KillPeer"@,
        CoordNetbenchServerState::Done => "Done"@,
    }
}

/// The state's bytes on the wire: its name as a JSON string.
pub open spec fn legacy_coord_state_bytes(s: CoordNetbenchServerState) -> Seq<u8> {
    json_name(legacy_coord_state_name(s))
}

impl CoordNetbenchServerState {
    /// The state's bytes on the wire.
    pub fn wire_bytes(&self) -> (r: Vec<u8>)
        ensures
            r@ == legacy_coord_state_bytes(*self),
    {
        json_name_bytes(self.variant_name())
    }

    fn variant_name(&self) -> (r: &'static str)
        ensures
            r@ == legacy_coord_state_name(*self),
    {
        match self {
            CoordNetbenchServerState::CheckPeer => "CheckPeer",
            CoordNetbenchServerState::Ready => "Ready",
            CoordNetbenchServerState::RunPeer => "RunPeer",
            CoordNetbenchServerState::KillPeer => "KillPeer",
            CoordNetbenchServerState::Done => "Done",
        }
    }

    /// The name the coordinator logs under.
    pub fn name(&self) -> (r: String)
        ensures
            r@ == "[coord-0]"@,
    {
        String::from_str("[coord-0]")
    }

    /// Whether two states are the same variant.
    pub fn eq(&self, other: &Self) -> (r: bool)
        ensures
            r == (*self == *other),
    {
        match (self, other) {
            (CoordNetbenchServerState::CheckPeer, CoordNetbenchServerState::CheckPeer) => true,
            (CoordNetbenchServerState::Ready, CoordNetbenchServerState::Ready) => true,
            (CoordNetbenchServerState::RunPeer, CoordNetbenchServerState::RunPeer) => true,
            (CoordNetbenchServerState::KillPeer, CoordNetbenchServerState::KillPeer) => true,
            (CoordNetbenchServerState::Done, CoordNetbenchServerState::Done) => true,
            _ => false,
        }
    }
}

impl StateApi for CoordNetbenchServerState {
    open spec fn step_spec(&self) -> StepSpec {
        match self {
            CoordNetbenchServerState::CheckPeer => StepSpec::AwaitNext(
                legacy_worker_state_bytes(WorkerNetbenchServerState::Ready),
            ),
            CoordNetbenchServerState::Ready => StepSpec::UserDriven,
            CoordNetbenchServerState::RunPeer => StepSpec::UserDriven,
            CoordNetbenchServerState::KillPeer => StepSpec::AwaitNext(
                legacy_worker_state_bytes(WorkerNetbenchServerState::Run),
            ),
            CoordNetbenchServerState::Done => StepSpec::Finished,
        }
    }

    open spec fn next_spec(&self) -> CoordNetbenchServerState {
        match self {
            CoordNetbenchServerState::CheckPeer => CoordNetbenchServerState::Ready,
            CoordNetbenchServerState::Ready => CoordNetbenchServerState::RunPeer,
            CoordNetbenchServerState::RunPeer => CoordNetbenchServerState::KillPeer,
            CoordNetbenchServerState::KillPeer => CoordNetbenchServerState::Done,
            CoordNetbenchServerState::Done => CoordNetbenchServerState::Done,
        }
    }

    open spec fn bytes_spec(&self) -> Seq<u8> {
        legacy_coord_state_bytes(*self)
    }

    open spec fn decode_spec(bytes: Seq<u8>) -> Option<CoordNetbenchServerState> {
        if bytes == legacy_coord_state_bytes(CoordNetbenchServerState::CheckPeer) {
            Some(CoordNetbenchServerState::CheckPeer)
        } else if bytes == legacy_coord_state_bytes(CoordNetbenchServerState::Ready) {
            Some(CoordNetbenchServerState::Ready)
        } else if bytes == legacy_coord_state_bytes(CoordNetbenchServerState::RunPeer) {
            Some(CoordNetbenchServerState::RunPeer)
        } else if bytes == legacy_coord_state_bytes(CoordNetbenchServerState::KillPeer) {
            Some(CoordNetbenchServerState::KillPeer)
        } else if bytes == legacy_coord_state_bytes(CoordNetbenchServerState::Done) {
            Some(CoordNetbenchServerState::Done)
        } else {
            None
        }
    }

    open spec fn prefix_spec(&self) -> Seq<char> {
        "[coord-0]"@
    }

    fn name_prefix(&self) -> (r: String) {
        String::from_str("[coord-0]")
    }

    fn transition_step(&self) -> (r: TransitionStep) {
        match self {
            CoordNetbenchServerState::CheckPeer => TransitionStep::AwaitNext(
                WorkerNetbenchServerState::Ready.wire_bytes(),
            ),
            CoordNetbenchServerState::Ready => TransitionStep::UserDriven,
            CoordNetbenchServerState::RunPeer => TransitionStep::UserDriven,
            CoordNetbenchServerState::KillPeer => TransitionStep::AwaitNext(
                WorkerNetbenchServerState::Run.wire_bytes(),
            ),
            CoordNetbenchServerState::Done => TransitionStep::Finished,
        }
    }

    fn next_state(&self) -> (r: CoordNetbenchServerState) {
        match self {
            CoordNetbenchServerState::CheckPeer => CoordNetbenchServerState::Ready,
            CoordNetbenchServerState::Ready => CoordNetbenchServerState::RunPeer,
            CoordNetbenchServerState::RunPeer => CoordNetbenchServerState::KillPeer,
            CoordNetbenchServerState::KillPeer => CoordNetbenchServerState::Done,
            CoordNetbenchServerState::Done => CoordNetbenchServerState::Done,
        }
    }

    fn as_bytes(&self) -> (r: Vec<u8>) {
        self.wire_bytes()
    }

    fn from_bytes(bytes: &[u8]) -> (r: Result<CoordNetbenchServerState, RussulaError>) {
        let candidates = [
            CoordNetbenchServerState::CheckPeer,
            CoordNetbenchServerState::Ready,
            CoordNetbenchServerState::RunPeer,
            CoordNetbenchServerState::KillPeer,
            CoordNetbenchServerState::Done,
        ];
        let mut i: usize = 0;
        while i < 5
            invariant
                0 <= i <= 5,
                candidates@ == seq![
                    CoordNetbenchServerState::CheckPeer,
                    CoordNetbenchServerState::Ready,
                    CoordNetbenchServerState::RunPeer,
                    CoordNetbenchServerState::KillPeer,
                    CoordNetbenchServerState::Done,
                ],
                forall|j: int| 0 <= j < i ==> bytes@ != (#[trigger] candidates@[j]).bytes_spec(),
            decreases 5 - i,
        {
            let enc = candidates[i].wire_bytes();
            if bytes_eq(enc.as_slice(), bytes) {
                return Ok(candidates[i]);
            }
            i = i + 1;
        }
        Err(unknown_state_error())
    }
}

/// The coordinator of the earlier server protocol.
#[derive(Clone, Copy)]
pub struct NetbenchCoordServerProtocol {
    state: CoordNetbenchServerState,
}

impl NetbenchCoordServerProtocol {
    /// The coordinator's state.
    pub closed spec fn current(&self) -> CoordNetbenchServerState {
        self.state
    }

    /// A coordinator about to check its peer.
    pub fn new() -> (r: NetbenchCoordServerProtocol)
        ensures
            r.current() == CoordNetbenchServerState::CheckPeer,
    {
        NetbenchCoordServerProtocol { state: CoordNetbenchServerState::CheckPeer }
    }

    /// The name the coordinator logs under.
    pub fn name(&self) -> (r: String)
        ensures
            r@ == "[coord-0]"@,
    {
        String::from_str("[coord-0]")
    }

    /// The coordinator's state.
    pub fn state(&self) -> (r: CoordNetbenchServerState)
        ensures
            r == self.current(),
    {
        self.state
    }

    /// What the coordinator does in its current state: where it waits for
    /// the peer it first sends its own state; where the user drives it, it
    /// moves on and sends the new state; once done it sends its state.
    pub fn run_action(&self) -> (r: RunAction)
        ensures
            r == (match self.current() {
                CoordNetbenchServerState::CheckPeer => RunAction::NotifyAndAwait,
                CoordNetbenchServerState::Ready => RunAction::Advance,
                CoordNetbenchServerState::RunPeer => RunAction::Advance,
                CoordNetbenchServerState::KillPeer => RunAction::NotifyAndAwait,
                CoordNetbenchServerState::Done => RunAction::Notify,
            }),
    {
        match self.state {
            CoordNetbenchServerState::CheckPeer => RunAction::NotifyAndAwait,
            CoordNetbenchServerState::Ready => RunAction::Advance,
            CoordNetbenchServerState::RunPeer => RunAction::Advance,
            CoordNetbenchServerState::KillPeer => RunAction::NotifyAndAwait,
            CoordNetbenchServerState::Done => RunAction::Notify,
        }
    }

    /// Moves to the next state.
    pub fn advance(&mut self)
        ensures
            final(self).current() == old(self).current().next_spec(),
    {
        self.state = self.state.next_state();
    }

    /// The bytes that tell the peer the coordinator's state.
    pub fn notify_bytes(&self) -> (r: Vec<u8>)
        ensures
            r@ == self.current().bytes_spec(),
    {
        self.state.wire_bytes()
    }

    /// Whether the coordinator is at the ready state, towards which it is
    /// polled before the peer is run.
    pub fn poll_ready(&self) -> (r: PollStatus)
        ensures
            (r == PollStatus::Ready) == (self.current() == CoordNetbenchServerState::Ready),
    {
        if self.state.eq(&CoordNetbenchServerState::Ready) {
            PollStatus::Ready
        } else {
            PollStatus::Pending
        }
    }
}

} // verus!
