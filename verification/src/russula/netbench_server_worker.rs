//! An earlier, smaller netbench server protocol: the worker side, with its
//! own fixed wire names.

use crate::russula::error::RussulaError;
use crate::russula::netbench_server_coord::{legacy_coord_state_bytes, CoordNetbenchServerState};
use crate::russula::protocol::{PollStatus, RunAction};
use crate::russula::states::{StateApi, StepSpec, TransitionStep, unknown_state_error};
use crate::text::{ascii_bytes, bytes_eq, decimal, push_ascii, push_decimal};
use vstd::prelude::*;
use vstd::string::*;

verus! {

/// The worker's states, in the order it goes through them.
#[derive(Debug, Clone, Copy, PartialEq, Eq, Structural)]
pub enum WorkerNetbenchServerState {
    WaitPeerInit,
    Ready,
    Run,
    Done,
}

/// The state's fixed wire name.
pub open spec fn legacy_worker_state_name(s: WorkerNetbenchServerState) -> Seq<char> {
    match s {
        WorkerNetbenchServerState::WaitPeerInit => "server_wait_peer_init"@,
        WorkerNetbenchServerState::Ready => "server_ready"@,
        WorkerNetbenchServerState::Run => "server_wait_peer_done"@,
        WorkerNetbenchServerState::Done => "server_done"@,
    }
}

/// The state's bytes on the wire: its fixed name in ASCII.
pub open spec fn legacy_worker_state_bytes(s: WorkerNetbenchServerState) -> Seq<u8> {
    ascii_bytes(legacy_worker_state_name(s))
}

impl WorkerNetbenchServerState {
    /// The state's bytes on the wire.
    pub fn wire_bytes(&self) -> (r: Vec<u8>)
        ensures
            r@ == legacy_worker_state_bytes(*self),
    {
        let mut v: Vec<u8> = Vec::new();
        let name = match self {
            WorkerNetbenchServerState::WaitPeerInit => "server_wait_peer_init",
            WorkerNetbenchServerState::Ready => "server_ready",
            WorkerNetbenchServerState::Run => "server_wait_peer_done",
            WorkerNetbenchServerState::Done => "server_done",
        };
        push_ascii(&mut v, name);
        assert(v@ =~= legacy_worker_state_bytes(*self));
        v
    }

    /// Whether two states are the same variant.
    pub fn eq(&self, other: &Self) -> (r: bool)
        ensures
            r == (*self == *other),
    {
        match (self, other) {
            (WorkerNetbenchServerState::WaitPeerInit, WorkerNetbenchServerState::WaitPeerInit) => true,
            (WorkerNetbenchServerState::Ready, WorkerNetbenchServerState::Ready) => true,
            (WorkerNetbenchServerState::Run, WorkerNetbenchServerState::Run) => true,
            (WorkerNetbenchServerState::Done, WorkerNetbenchServerState::Done) => true,
            _ => false,
        }
    }
}

impl StateApi for WorkerNetbenchServerState {
    open spec fn step_spec(&self) -> StepSpec {
        match self {
            WorkerNetbenchServerState::WaitPeerInit => StepSpec::AwaitNext(
                legacy_coord_state_bytes(CoordNetbenchServerState::CheckPeer),
            ),
            WorkerNetbenchServerState::Ready => StepSpec::AwaitNext(
                legacy_coord_state_bytes(CoordNetbenchServerState::RunPeer),
            ),
            WorkerNetbenchServerState::Run => StepSpec::AwaitNext(
                legacy_coord_state_bytes(CoordNetbenchServerState::KillPeer),
            ),
            WorkerNetbenchServerState::Done => StepSpec::Finished,
        }
    }

    open spec fn next_spec(&self) -> WorkerNetbenchServerState {
        match self {
            WorkerNetbenchServerState::WaitPeerInit => WorkerNetbenchServerState::Ready,
            WorkerNetbenchServerState::Ready => WorkerNetbenchServerState::Run,
            WorkerNetbenchServerState::Run => WorkerNetbenchServerState::Done,
            WorkerNetbenchServerState::Done => WorkerNetbenchServerState::Done,
        }
    }

    open spec fn bytes_spec(&self) -> Seq<u8> {
        legacy_worker_state_bytes(*self)
    }

    open spec fn decode_spec(bytes: Seq<u8>) -> Option<WorkerNetbenchServerState> {
        if bytes == legacy_worker_state_bytes(WorkerNetbenchServerState::WaitPeerInit) {
            Some(WorkerNetbenchServerState::WaitPeerInit)
        } else if bytes == legacy_worker_state_bytes(WorkerNetbenchServerState::Ready) {
            Some(WorkerNetbenchServerState::Ready)
        } else if bytes == legacy_worker_state_bytes(WorkerNetbenchServerState::Run) {
            Some(WorkerNetbenchServerState::Run)
        } else if bytes == legacy_worker_state_bytes(WorkerNetbenchServerState::Done) {
            Some(WorkerNetbenchServerState::Done)
        } else {
            None
        }
    }

    open spec fn prefix_spec(&self) -> Seq<char> {
        "[worker]"@
    }

    fn name_prefix(&self) -> (r: String) {
        String::from_str("[worker]")
    }

    fn transition_step(&self) -> (r: TransitionStep) {
        match self {
            WorkerNetbenchServerState::WaitPeerInit => TransitionStep::AwaitNext(
                CoordNetbenchServerState::CheckPeer.wire_bytes(),
            ),
            WorkerNetbenchServerState::Ready => TransitionStep::AwaitNext(
                CoordNetbenchServerState::RunPeer.wire_bytes(),
            ),
            WorkerNetbenchServerState::Run => TransitionStep::AwaitNext(
                CoordNetbenchServerState::KillPeer.wire_bytes(),
            ),
            WorkerNetbenchServerState::Done => TransitionStep::Finished,
        }
    }

    fn next_state(&self) -> (r: WorkerNetbenchServerState) {
        match self {
            WorkerNetbenchServerState::WaitPeerInit => WorkerNetbenchServerState::Ready,
            WorkerNetbenchServerState::Ready => WorkerNetbenchServerState::Run,
            WorkerNetbenchServerState::Run => WorkerNetbenchServerState::Done,
            WorkerNetbenchServerState::Done => WorkerNetbenchServerState::Done,
        }
    }

    fn as_bytes(&self) -> (r: Vec<u8>) {
        self.wire_bytes()
    }

    fn from_bytes(bytes: &[u8]) -> (r: Result<WorkerNetbenchServerState, RussulaError>) {
        let candidates = [
            WorkerNetbenchServerState::WaitPeerInit,
            WorkerNetbenchServerState::Ready,
            WorkerNetbenchServerState::Run,
            WorkerNetbenchServerState::Done,
        ];
        let mut i: usize = 0;
        while i < 4
            invariant
                0 <= i <= 4,
                candidates@ == seq![
                    WorkerNetbenchServerState::WaitPeerInit,
                    WorkerNetbenchServerState::Ready,
                    WorkerNetbenchServerState::Run,
                    WorkerNetbenchServerState::Done,
                ],
                forall|j: int| 0 <= j < i ==> bytes@ != (#[trigger] candidates@[j]).bytes_spec(),
            decreases 4 - i,
        {
            let enc = candidates[i].wire_bytes();
            if bytes_eq(enc.as_slice(), bytes) {
                return Ok(candidates[i]);
            }
            i = i + 1;
        }
        Err(unknown_state_error())
    }
}

/// A worker of the earlier server protocol.
#[derive(Clone, Copy)]
pub struct NetbenchWorkerServerProtocol {
    id: u16,
    state: WorkerNetbenchServerState,
}

/// The name the worker logs under: `[worker-ID]`.
pub open spec fn legacy_worker_name(id: u16) -> Seq<char> {
    "[worker-"@ + decimal(id as nat) + "]"@
}

impl NetbenchWorkerServerProtocol {
    /// The worker's state.
    pub closed spec fn current(&self) -> WorkerNetbenchServerState {
        self.state
    }

    /// The worker's id.
    pub closed spec fn spec_id(&self) -> u16 {
        self.id
    }

    /// A worker waiting for its peer.
    pub fn new(id: u16) -> (r: NetbenchWorkerServerProtocol)
        ensures
            r.spec_id() == id,
            r.current() == WorkerNetbenchServerState::WaitPeerInit,
    {
        NetbenchWorkerServerProtocol { id, state: WorkerNetbenchServerState::WaitPeerInit }
    }

    /// The name the worker logs under.
    pub fn name(&self) -> (r: String)
        ensures
            r@ == legacy_worker_name(self.spec_id()),
    {
        let mut s = String::from_str("[worker-");
        push_decimal(&mut s, self.id as u64);
        s.append("]");
        s
    }

    /// The worker's state.
    pub fn state(&self) -> (r: WorkerNetbenchServerState)
        ensures
            r == self.current(),
    {
        self.state
    }

    /// What the worker does in its current state: it waits for its peer
    /// until it runs, and from `Run` on moves to the next state and sends
    /// it.
    pub fn run_action(&self) -> (r: RunAction)
        ensures
            r == (match self.current() {
                WorkerNetbenchServerState::WaitPeerInit => RunAction::Await,
                WorkerNetbenchServerState::Ready => RunAction::Await,
                WorkerNetbenchServerState::Run => RunAction::Advance,
                WorkerNetbenchServerState::Done => RunAction::Advance,
            }),
    {
        match self.state {
            WorkerNetbenchServerState::WaitPeerInit => RunAction::Await,
            WorkerNetbenchServerState::Ready => RunAction::Await,
            WorkerNetbenchServerState::Run => RunAction::Advance,
            WorkerNetbenchServerState::Done => RunAction::Advance,
        }
    }

    /// Moves to the next state.
    pub fn advance(&mut self)
        ensures
            final(self).current() == old(self).current().next_spec(),
            final(self).spec_id() == old(self).spec_id(),
    {
        self.state = self.state.next_state();
    }

    /// The bytes that tell the peer the worker's state.
    pub fn notify_bytes(&self) -> (r: Vec<u8>)
        ensures
            r@ == self.current().bytes_spec(),
    {
        self.state.wire_bytes()
    }

    /// Whether the worker is at the ready state, which it is run towards
    /// first.
    pub fn poll_ready(&self) -> (r: PollStatus)
        ensures
            (r == PollStatus::Ready) == (self.current() == WorkerNetbenchServerState::Ready),
    {
        if self.state.eq(&WorkerNetbenchServerState::Ready) {
            PollStatus::Ready
        } else {
            PollStatus::Pending
        }
    }
}

} // verus!
