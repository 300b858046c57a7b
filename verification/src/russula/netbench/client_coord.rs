//! The coordinator side of the netbench client protocol: it checks that the
//! client workers are ready, lets them run, and waits for them to finish.

use crate::russula::error::RussulaError;
use crate::russula::event::EventRecorder;
use crate::russula::netbench::client_worker::{client_worker_state_bytes, WorkerState};
use crate::russula::network_utils::Msg;
use crate::russula::protocol::{AwaitOutcome, PollStatus, ProtocolCore, RunAction};
use crate::russula::json_name::{json_variant_text, variant_form, variant_form_matches};
use crate::russula::states::{json_trim, trim_json_ws};
use crate::russula::states::{
    json_name, json_name_bytes, spec_matches_transition_msg, StateApi, StepSpec, TransitionStep,
    unknown_state_error,
};
use vstd::prelude::*;
use vstd::string::*;

verus! {

/// The coordinator's states, in the order it goes through them.
#[derive(Debug, Clone, Copy, PartialEq, Eq, Structural)]
pub enum CoordState {
    CheckWorker,
    Ready,
    RunWorker,
    WorkersRunning,
    Done,
}

/// The variant's name, as it appears on the wire.
pub open spec fn client_coord_state_name(s: CoordState) -> Seq<char> {
    match s {
        CoordState::CheckWorker => "CheckWorker"@,
        CoordState::Ready => "Ready"@,
        CoordState::RunWorker => "RunWorker"@,
        CoordState::WorkersRunning => "WorkersRunning"@,
        CoordState::Done => "Done"@,
    }
}

/// The position of the state in the coordinator's run, from 0 to 4.
pub open spec fn client_coord_state_rank(s: CoordState) -> nat {
    match s {
        CoordState::CheckWorker => 0,
        CoordState::Ready => 1,
        CoordState::RunWorker => 2,
        CoordState::WorkersRunning => 3,
        CoordState::Done => 4,
    }
}

/// The state's bytes on the wire: its name as a JSON string.
pub open spec fn client_coord_state_bytes(s: CoordState) -> Seq<u8> {
    json_name(client_coord_state_name(s))
}

impl CoordState {
    /// The state's bytes on the wire.
    pub fn wire_bytes(&self) -> (r: Vec<u8>)
        ensures
            r@ == client_coord_state_bytes(*self),
    {
        json_name_bytes(self.variant_name())
    }

    fn variant_name(&self) -> (r: &'static str)
        ensures
            r@ == client_coord_state_name(*self),
    {
        match self {
            CoordState::CheckWorker => "CheckWorker",
            CoordState::Ready => "Ready",
            CoordState::RunWorker => "RunWorker",
            CoordState::WorkersRunning => "WorkersRunning",
            CoordState::Done => "Done",
        }
    }
}

impl StateApi for CoordState {
    open spec fn step_spec(&self) -> StepSpec {
        match self {
            CoordState::CheckWorker => StepSpec::AwaitNext(client_worker_state_bytes(WorkerState::Ready)),
            CoordState::Ready => StepSpec::UserDriven,
            CoordState::RunWorker => StepSpec::AwaitNext(
                client_worker_state_bytes(WorkerState::Running(0)),
            ),
            CoordState::WorkersRunning => StepSpec::AwaitNext(
                client_worker_state_bytes(WorkerState::Stopped),
            ),
            CoordState::Done => StepSpec::Finished,
        }
    }

    open spec fn next_spec(&self) -> CoordState {
        match self {
            CoordState::CheckWorker => CoordState::Ready,
            CoordState::Ready => CoordState::RunWorker,
            CoordState::RunWorker => CoordState::WorkersRunning,
            CoordState::WorkersRunning => CoordState::Done,
            CoordState::Done => CoordState::Done,
        }
    }

    open spec fn bytes_spec(&self) -> Seq<u8> {
        json_name(client_coord_state_name(*self))
    }

    open spec fn decode_spec(bytes: Seq<u8>) -> Option<CoordState> {
        if json_variant_text(bytes, client_coord_state_name(CoordState::CheckWorker)) {
            Some(CoordState::CheckWorker)
        } else if json_variant_text(bytes, client_coord_state_name(CoordState::Ready)) {
            Some(CoordState::Ready)
        } else if json_variant_text(bytes, client_coord_state_name(CoordState::RunWorker)) {
            Some(CoordState::RunWorker)
        } else if json_variant_text(bytes, client_coord_state_name(CoordState::WorkersRunning)) {
            Some(CoordState::WorkersRunning)
        } else if json_variant_text(bytes, client_coord_state_name(CoordState::Done)) {
            Some(CoordState::Done)
        } else {
            None
        }
    }

    open spec fn prefix_spec(&self) -> Seq<char> {
        "client-coord"@
    }

    fn name_prefix(&self) -> (r: String) {
        String::from_str("client-coord")
    }

    fn transition_step(&self) -> (r: TransitionStep) {
        match self {
            CoordState::CheckWorker => TransitionStep::AwaitNext(WorkerState::Ready.wire_bytes()),
            CoordState::Ready => TransitionStep::UserDriven,
            CoordState::RunWorker => TransitionStep::AwaitNext(WorkerState::Running(0).wire_bytes()),
            CoordState::WorkersRunning => TransitionStep::AwaitNext(
                WorkerState::Stopped.wire_bytes(),
            ),
            CoordState::Done => TransitionStep::Finished,
        }
    }

    fn next_state(&self) -> (r: CoordState) {
        match self {
            CoordState::CheckWorker => CoordState::Ready,
            CoordState::Ready => CoordState::RunWorker,
            CoordState::RunWorker => CoordState::WorkersRunning,
            CoordState::WorkersRunning => CoordState::Done,
            CoordState::Done => CoordState::Done,
        }
    }

    fn as_bytes(&self) -> (r: Vec<u8>) {
        self.wire_bytes()
    }

    fn from_bytes(bytes: &[u8]) -> (r: Result<CoordState, RussulaError>) {
        let trimmed = trim_json_ws(bytes);
        let t = trimmed.as_slice();
        let candidates = [
            CoordState::CheckWorker,
            CoordState::Ready,
            CoordState::RunWorker,
            CoordState::WorkersRunning,
            CoordState::Done,
        ];
        let mut i: usize = 0;
        while i < 5
            invariant
                0 <= i <= 5,
                candidates@ == seq![
                    CoordState::CheckWorker,
                    CoordState::Ready,
                    CoordState::RunWorker,
                    CoordState::WorkersRunning,
                    CoordState::Done,
                ],
                forall|j: int| 0 <= j < i ==> !variant_form(t@, client_coord_state_name(#[trigger] candidates@[j])),
                t@ == json_trim(bytes@),
            decreases 5 - i,
        {
            if variant_form_matches(t, candidates[i].variant_name()) {
                return Ok(candidates[i]);
            }
            i = i + 1;
        }
        Err(unknown_state_error())
    }
}

} // verus!

verus! {

/// The client coordinator: its state, the last state its worker reported,
/// and its message counts.
pub struct CoordProtocol {
    core: ProtocolCore<CoordState, WorkerState>,
}

impl CoordProtocol {
    /// The coordinator's state.
    pub closed spec fn current(&self) -> CoordState {
        self.core.current()
    }

    /// The last state the worker reported.
    pub closed spec fn peer(&self) -> WorkerState {
        self.core.peer()
    }

    /// The message counts.
    pub closed spec fn recorder(&self) -> EventRecorder {
        self.core.recorder()
    }

    /// A coordinator about to check its worker, which it expects to wait
    /// for it.
    pub fn new() -> (r: CoordProtocol)
        ensures
            r.current() == CoordState::CheckWorker,
            r.peer() == WorkerState::WaitCoordInit,
            r.recorder().sent() == 0,
            r.recorder().received() == 0,
    {
        CoordProtocol { core: ProtocolCore::new(CoordState::CheckWorker, WorkerState::WaitCoordInit) }
    }

    /// The name the coordinator logs under.
    pub fn name(&self) -> (r: String)
        ensures
            r@ == "client-c-0"@,
    {
        String::from_str("client-c-0")
    }

    /// The coordinator's state.
    pub fn state(&self) -> (r: CoordState)
        ensures
            r == self.current(),
    {
        self.core.state()
    }

    /// The last state the worker reported.
    pub fn worker_state(&self) -> (r: WorkerState)
        ensures
            r == self.peer(),
    {
        self.core.peer_state()
    }

    /// The message counts.
    pub fn event_recorder(&self) -> (r: &EventRecorder)
        ensures
            *r == self.recorder(),
    {
        self.core.event_recorder()
    }

    /// The state in which the workers are confirmed ready.
    pub fn ready_state(&self) -> (r: CoordState)
        ensures
            r == CoordState::Ready,
    {
        CoordState::Ready
    }

    /// The final state.
    pub fn done_state(&self) -> (r: CoordState)
        ensures
            r == CoordState::Done,
    {
        CoordState::Done
    }

    /// The state in which the workers are confirmed running.
    pub fn worker_running_state(&self) -> (r: CoordState)
        ensures
            r == CoordState::WorkersRunning,
    {
        CoordState::WorkersRunning
    }

    /// Whether the coordinator is at the ready state.
    pub fn is_ready_state(&self) -> (r: bool)
        ensures
            r == (self.current() == CoordState::Ready),
    {
        proof {
            crate::russula::netbench::lemma_client_coord_same_state(self.current(), CoordState::Ready);
        }
        !self.core.needs_progress(&CoordState::Ready)
    }

    /// Whether the coordinator is at the final state.
    pub fn is_done_state(&self) -> (r: bool)
        ensures
            r == (self.current() == CoordState::Done),
    {
        self.core.is_done_state()
    }

    /// Whether the coordinator is at the workers-running state.
    pub fn is_worker_running_state(&self) -> (r: bool)
        ensures
            r == (self.current() == CoordState::WorkersRunning),
    {
        proof {
            crate::russula::netbench::lemma_client_coord_same_state(
                self.current(),
                CoordState::WorkersRunning,
            );
        }
        !self.core.needs_progress(&CoordState::WorkersRunning)
    }

    /// What the coordinator does in its current state: where it waits for
    /// its workers it first sends its own state; in `Ready` it moves on and
    /// sends the new state; once done it keeps sending its state.
    pub fn run_action(&self) -> (r: RunAction)
        ensures
            r == (match self.current() {
                CoordState::CheckWorker => RunAction::NotifyAndAwait,
                CoordState::Ready => RunAction::Advance,
                CoordState::RunWorker => RunAction::NotifyAndAwait,
                CoordState::WorkersRunning => RunAction::NotifyAndAwait,
                CoordState::Done => RunAction::Notify,
            }),
    {
        match self.core.state() {
            CoordState::CheckWorker => RunAction::NotifyAndAwait,
            CoordState::Ready => RunAction::Advance,
            CoordState::RunWorker => RunAction::NotifyAndAwait,
            CoordState::WorkersRunning => RunAction::NotifyAndAwait,
            CoordState::Done => RunAction::Notify,
        }
    }

    /// The bytes that tell the worker the coordinator's state.
    pub fn notify_bytes(&self) -> (r: Vec<u8>)
        ensures
            r@ == self.current().bytes_spec(),
    {
        self.core.notify_bytes()
    }

    /// Moves to the next state.
    pub fn advance(&mut self)
        ensures
            final(self).current() == old(self).current().next_spec(),
            final(self).peer() == old(self).peer(),
            final(self).recorder() == old(self).recorder(),
    {
        self.core.advance();
    }

    /// Handles one read from the worker; see `ProtocolCore::on_recv`.
    pub fn on_recv(&mut self, received: Result<Msg, RussulaError>) -> (r: AwaitOutcome)
        requires
            old(self).current().step_spec() is AwaitNext,
            old(self).recorder().received() < u64::MAX,
        ensures
            final(self).peer() == old(self).peer(),
            match received {
                Ok(m) => {
                    &&& final(self).recorder().received() == old(self).recorder().received() + 1
                    &&& final(self).recorder().sent() == old(self).recorder().sent()
                    &&& if spec_matches_transition_msg(old(self).current(), m@.data) {
                        &&& r matches AwaitOutcome::Transitioned(m2) && m2@ == m@
                        &&& final(self).current() == old(self).current().next_spec()
                    } else {
                        &&& r matches AwaitOutcome::Continue(m2) && m2@ == m@
                        &&& final(self).current() == old(self).current()
                    }
                },
                Err(e) => {
                    &&& final(self).current() == old(self).current()
                    &&& final(self).recorder() == old(self).recorder()
                    &&& if e is NetworkBlocked {
                        r is Blocked
                    } else {
                        r == AwaitOutcome::Failed(e)
                    }
                },
            },
    {
        self.core.on_recv(received)
    }

    /// Records the worker state that `msg` carries; see
    /// `ProtocolCore::update_peer_state`.
    pub fn update_peer_state(&mut self, msg: &Msg) -> (r: Result<(), RussulaError>)
        ensures
            final(self).current() == old(self).current(),
            final(self).recorder() == old(self).recorder(),
            match WorkerState::decode_spec(msg@.data) {
                Some(p) => r is Ok && final(self).peer() == p,
                None => r matches Err(e) && e is BadMsg && final(self).peer() == old(self).peer(),
            },
    {
        self.core.update_peer_state(msg)
    }

    /// Whether the coordinator has reached `target`.
    pub fn poll_status(&self, target: &CoordState) -> (r: PollStatus)
        ensures
            (r == PollStatus::Ready) == (self.current() == *target),
    {
        proof {
            crate::russula::netbench::lemma_client_coord_same_state(self.current(), *target);
        }
        self.core.poll_status(target)
    }
}

} // verus!
