//! The worker side of the netbench client protocol: it waits for the
//! coordinator, runs the netbench client workload, and reports when it has
//! finished.

use crate::russula::error::RussulaError;
use crate::russula::event::EventRecorder;
use crate::russula::netbench::{env_view, PeerList, WorkloadCommand};
use crate::russula::network_utils::Msg;
use crate::russula::protocol::{AwaitOutcome, PollStatus, ProtocolCore, RunAction};
use crate::russula::states::spec_matches_transition_msg;
use crate::text::{concat3, decimal, owned, push_decimal, strings_view};
use crate::russula::netbench::client_coord::{client_coord_state_bytes, CoordState};
use crate::russula::json_name::{json_variant_text, variant_form, variant_form_matches};
use crate::russula::states::{json_trim, trim_json_ws};
use crate::russula::states::{
    json_name, json_name_bytes, StateApi, StepSpec, TransitionStep, unknown_state_error,
};
use vstd::prelude::*;
use vstd::string::*;

verus! {

/// The process id a state carries until the real workload id is known.
pub const PLACEHOLDER_PID: u32 = 1000;

/// The client worker's states, in the order it goes through them. The
/// running states carry the workload's process id, which is not sent on the
/// wire.
#[derive(Debug, Clone, Copy, PartialEq, Eq, Structural)]
pub enum WorkerState {
    WaitCoordInit,
    Ready,
    Run,
    Running(u32),
    RunningAwaitComplete(u32),
    Stopped,
    Done,
}

/// The variant's name, as it appears on the wire.
pub open spec fn client_worker_state_name(s: WorkerState) -> Seq<char> {
    match s {
        WorkerState::WaitCoordInit => "WaitCoordInit"@,
        WorkerState::Ready => "Ready"@,
        WorkerState::Run => "Run"@,
        WorkerState::Running(_) => "Running"@,
        WorkerState::RunningAwaitComplete(_) => "RunningAwaitComplete"@,
        WorkerState::Stopped => "Stopped"@,
        WorkerState::Done => "Done"@,
    }
}

/// The state with its process id dropped, as it reads back from the wire.
pub open spec fn client_worker_state_erased(s: WorkerState) -> WorkerState {
    match s {
        WorkerState::Running(_) => WorkerState::Running(0),
        WorkerState::RunningAwaitComplete(_) => WorkerState::RunningAwaitComplete(0),
        _ => s,
    }
}

/// The position of the state in the worker's run, from 0 to 6.
pub open spec fn client_worker_state_rank(s: WorkerState) -> nat {
    match s {
        WorkerState::WaitCoordInit => 0,
        WorkerState::Ready => 1,
        WorkerState::Run => 2,
        WorkerState::Running(_) => 3,
        WorkerState::RunningAwaitComplete(_) => 4,
        WorkerState::Stopped => 5,
        WorkerState::Done => 6,
    }
}

/// The state's bytes on the wire: its name as a JSON string.
pub open spec fn client_worker_state_bytes(s: WorkerState) -> Seq<u8> {
    json_name(client_worker_state_name(s))
}

impl WorkerState {
    /// The state's bytes on the wire.
    pub fn wire_bytes(&self) -> (r: Vec<u8>)
        ensures
            r@ == client_worker_state_bytes(*self),
    {
        json_name_bytes(self.variant_name())
    }

    fn variant_name(&self) -> (r: &'static str)
        ensures
            r@ == client_worker_state_name(*self),
    {
        match self {
            WorkerState::WaitCoordInit => "WaitCoordInit",
            WorkerState::Ready => "Ready",
            WorkerState::Run => "Run",
            WorkerState::Running(_) => "Running",
            WorkerState::RunningAwaitComplete(_) => "RunningAwaitComplete",
            WorkerState::Stopped => "Stopped",
            WorkerState::Done => "Done",
        }
    }
}

impl StateApi for WorkerState {
    open spec fn step_spec(&self) -> StepSpec {
        match self {
            WorkerState::WaitCoordInit => StepSpec::AwaitNext(client_coord_state_bytes(CoordState::CheckWorker)),
            WorkerState::Ready => StepSpec::AwaitNext(client_coord_state_bytes(CoordState::RunWorker)),
            WorkerState::Run => StepSpec::SelfDriven,
            WorkerState::Running(_) => StepSpec::AwaitNext(
                client_coord_state_bytes(CoordState::WorkersRunning),
            ),
            WorkerState::RunningAwaitComplete(_) => StepSpec::SelfDriven,
            WorkerState::Stopped => StepSpec::AwaitNext(client_coord_state_bytes(CoordState::Done)),
            WorkerState::Done => StepSpec::Finished,
        }
    }

    open spec fn next_spec(&self) -> WorkerState {
        match self {
            WorkerState::WaitCoordInit => WorkerState::Ready,
            WorkerState::Ready => WorkerState::Run,
            WorkerState::Run => WorkerState::Running(PLACEHOLDER_PID),
            WorkerState::Running(pid) => WorkerState::RunningAwaitComplete(*pid),
            WorkerState::RunningAwaitComplete(_) => WorkerState::Stopped,
            WorkerState::Stopped => WorkerState::Done,
            WorkerState::Done => WorkerState::Done,
        }
    }

    open spec fn bytes_spec(&self) -> Seq<u8> {
        json_name(client_worker_state_name(*self))
    }

    open spec fn decode_spec(bytes: Seq<u8>) -> Option<WorkerState> {
        if json_variant_text(bytes, client_worker_state_name(WorkerState::WaitCoordInit)) {
            Some(WorkerState::WaitCoordInit)
        } else if json_variant_text(bytes, client_worker_state_name(WorkerState::Ready)) {
            Some(WorkerState::Ready)
        } else if json_variant_text(bytes, client_worker_state_name(WorkerState::Run)) {
            Some(WorkerState::Run)
        } else if json_variant_text(bytes, client_worker_state_name(WorkerState::Running(0))) {
            Some(WorkerState::Running(0))
        } else if json_variant_text(bytes, client_worker_state_name(WorkerState::RunningAwaitComplete(0))) {
            Some(WorkerState::RunningAwaitComplete(0))
        } else if json_variant_text(bytes, client_worker_state_name(WorkerState::Stopped)) {
            Some(WorkerState::Stopped)
        } else if json_variant_text(bytes, client_worker_state_name(WorkerState::Done)) {
            Some(WorkerState::Done)
        } else {
            None
        }
    }

    open spec fn prefix_spec(&self) -> Seq<char> {
        "client-worker"@
    }

    fn name_prefix(&self) -> (r: String) {
        String::from_str("client-worker")
    }

    fn transition_step(&self) -> (r: TransitionStep) {
        match self {
            WorkerState::WaitCoordInit => TransitionStep::AwaitNext(
                CoordState::CheckWorker.wire_bytes(),
            ),
            WorkerState::Ready => TransitionStep::AwaitNext(CoordState::RunWorker.wire_bytes()),
            WorkerState::Run => TransitionStep::SelfDriven,
            WorkerState::Running(_) => TransitionStep::AwaitNext(
                CoordState::WorkersRunning.wire_bytes(),
            ),
            WorkerState::RunningAwaitComplete(_) => TransitionStep::SelfDriven,
            WorkerState::Stopped => TransitionStep::AwaitNext(CoordState::Done.wire_bytes()),
            WorkerState::Done => TransitionStep::Finished,
        }
    }

    fn next_state(&self) -> (r: WorkerState) {
        match self {
            WorkerState::WaitCoordInit => WorkerState::Ready,
            WorkerState::Ready => WorkerState::Run,
            WorkerState::Run => WorkerState::Running(PLACEHOLDER_PID),
            WorkerState::Running(pid) => WorkerState::RunningAwaitComplete(*pid),
            WorkerState::RunningAwaitComplete(_) => WorkerState::Stopped,
            WorkerState::Stopped => WorkerState::Done,
            WorkerState::Done => WorkerState::Done,
        }
    }

    fn as_bytes(&self) -> (r: Vec<u8>) {
        self.wire_bytes()
    }

    fn from_bytes(bytes: &[u8]) -> (r: Result<WorkerState, RussulaError>) {
        let trimmed = trim_json_ws(bytes);
        let t = trimmed.as_slice();
        let candidates = [
            WorkerState::WaitCoordInit,
            WorkerState::Ready,
            WorkerState::Run,
            WorkerState::Running(0),
            WorkerState::RunningAwaitComplete(0),
            WorkerState::Stopped,
            WorkerState::Done,
        ];
        let mut i: usize = 0;
        while i < 7
            invariant
                0 <= i <= 7,
                candidates@ == seq![
                    WorkerState::WaitCoordInit,
                    WorkerState::Ready,
                    WorkerState::Run,
                    WorkerState::Running(0),
                    WorkerState::RunningAwaitComplete(0),
                    WorkerState::Stopped,
                    WorkerState::Done,
                ],
                forall|j: int| 0 <= j < i ==> !variant_form(t@, client_worker_state_name(#[trigger] candidates@[j])),
                t@ == json_trim(bytes@),
            decreases 7 - i,
        {
            if variant_form_matches(t, candidates[i].variant_name()) {
                return Ok(candidates[i]);
            }
            i = i + 1;
        }
        Err(unknown_state_error())
    }
}

} // verus!

verus! {

/// A client worker: its id, its state, the last state its coordinator
/// reported, its message counts, and the netbench peers it runs against
/// (none when it simulates the workload).
pub struct WorkerProtocol {
    id: u16,
    core: ProtocolCore<WorkerState, CoordState>,
    netbench_ctx: Option<PeerList>,
}

/// The name a client worker logs under: `[client-worker-ID]`.
pub open spec fn client_worker_name(id: u16) -> Seq<char> {
    "[client-worker-"@ + decimal(id as nat) + "]"@
}

impl WorkerProtocol {
    /// The worker's state.
    pub closed spec fn current(&self) -> WorkerState {
        self.core.current()
    }

    /// The last state the coordinator reported.
    pub closed spec fn peer(&self) -> CoordState {
        self.core.peer()
    }

    /// The message counts.
    pub closed spec fn recorder(&self) -> EventRecorder {
        self.core.recorder()
    }

    /// The worker's id.
    pub closed spec fn spec_id(&self) -> u16 {
        self.id
    }

    /// The netbench peers, if the worker runs the real workload.
    pub closed spec fn ctx(&self) -> Option<Seq<Seq<char>>> {
        match self.netbench_ctx {
            Some(p) => Some(strings_view(p.0@)),
            None => None,
        }
    }

    /// A worker waiting for its coordinator, which it expects to check on
    /// it.
    pub fn new(id: u16, netbench_ctx: Option<PeerList>) -> (r: WorkerProtocol)
        ensures
            r.spec_id() == id,
            r.current() == WorkerState::WaitCoordInit,
            r.peer() == CoordState::CheckWorker,
            r.recorder().sent() == 0,
            r.recorder().received() == 0,
            r.ctx() == (match netbench_ctx {
                Some(p) => Some(strings_view(p.0@)),
                None => None::<Seq<Seq<char>>>,
            }),
    {
        WorkerProtocol {
            id,
            core: ProtocolCore::new(WorkerState::WaitCoordInit, CoordState::CheckWorker),
            netbench_ctx,
        }
    }

    /// The name the worker logs under.
    pub fn name(&self) -> (r: String)
        ensures
            r@ == client_worker_name(self.spec_id()),
    {
        let mut s = String::from_str("[client-worker-");
        push_decimal(&mut s, self.id as u64);
        s.append("]");
        s
    }

    /// The worker's state.
    pub fn state(&self) -> (r: WorkerState)
        ensures
            r == self.current(),
    {
        self.core.state()
    }

    /// The last state the coordinator reported.
    pub fn coord_state(&self) -> (r: CoordState)
        ensures
            r == self.peer(),
    {
        self.core.peer_state()
    }

    /// The message counts.
    pub fn event_recorder(&self) -> (r: &EventRecorder)
        ensures
            *r == self.recorder(),
    {
        self.core.event_recorder()
    }

    /// The state in which the worker is ready to run.
    pub fn ready_state(&self) -> (r: WorkerState)
        ensures
            r == WorkerState::Ready,
    {
        WorkerState::Ready
    }

    /// The final state.
    pub fn done_state(&self) -> (r: WorkerState)
        ensures
            r == WorkerState::Done,
    {
        WorkerState::Done
    }

    /// Whether the worker is at the ready state.
    pub fn is_ready_state(&self) -> (r: bool)
        ensures
            r == (self.current() == WorkerState::Ready),
    {
        proof {
            crate::russula::netbench::lemma_client_worker_same_state(self.current(), WorkerState::Ready);
        }
        !self.core.needs_progress(&WorkerState::Ready)
    }

    /// Whether the worker is at the final state.
    pub fn is_done_state(&self) -> (r: bool)
        ensures
            r == (self.current() == WorkerState::Done),
    {
        self.core.is_done_state()
    }

    /// What the worker does in its current state: it waits for the
    /// coordinator (announcing itself first once past the initial wait),
    /// starts the workload, looks at it once told the workers are running,
    /// and once done keeps sending its state.
    pub fn run_action(&self) -> (r: RunAction)
        ensures
            r == (match self.current() {
                WorkerState::WaitCoordInit => RunAction::Await,
                WorkerState::Ready => RunAction::NotifyAndAwait,
                WorkerState::Run => RunAction::StartWorkload,
                WorkerState::Running(_) => RunAction::NotifyAndAwait,
                WorkerState::RunningAwaitComplete(pid) => RunAction::CheckWorkload { pid },
                WorkerState::Stopped => RunAction::NotifyAndAwait,
                WorkerState::Done => RunAction::Notify,
            }),
    {
        match self.core.state() {
            WorkerState::WaitCoordInit => RunAction::Await,
            WorkerState::Ready => RunAction::NotifyAndAwait,
            WorkerState::Run => RunAction::StartWorkload,
            WorkerState::Running(_) => RunAction::NotifyAndAwait,
            WorkerState::RunningAwaitComplete(pid) => RunAction::CheckWorkload { pid },
            WorkerState::Stopped => RunAction::NotifyAndAwait,
            WorkerState::Done => RunAction::Notify,
        }
    }

    /// The process to start in the `Run` state: with netbench peers, the
    /// netbench collector wrapping the s2n-quic client driver, pointed at
    /// the first peer, its output going to a JSON file; without, the
    /// simulation script.
    pub fn workload_command(&self) -> (r: WorkloadCommand)
        requires
            self.ctx() matches Some(peers) ==> peers.len() > 0,
        ensures
            match self.ctx() {
                Some(peers) => {
                    &&& r.program@ == "netbench-collector"@
                    &&& strings_view(r.args@) == seq![
                        "netbench-driver-s2n-quic-client"@,
                        "--scenario"@,
                        "request_response.json"@,
                    ]
                    &&& env_view(r.env@) == seq![("SERVER_0"@, peers[0])]
                    &&& r.stdout_path matches Some(p) && p@ == "netbench-client-client-worker.json"@
                },
                None => {
                    &&& r.program@ == "sh"@
                    &&& strings_view(r.args@) == seq![
                        "sim_netbench_client.sh"@,
                        client_worker_name(self.spec_id()),
                    ]
                    &&& r.env@.len() == 0
                    &&& r.stdout_path is None
                },
            },
    {
        match &self.netbench_ctx {
            Some(ctx) => {
                let peer = ctx.0[0].clone();
                let mut args: Vec<String> = Vec::new();
                args.push(owned("netbench-driver-s2n-quic-client"));
                args.push(owned("--scenario"));
                args.push(owned("request_response.json"));
                let mut env: Vec<(String, String)> = Vec::new();
                env.push((owned("SERVER_0"), peer));
                let out = concat3("netbench-client-", self.core.state().name_prefix().as_str(), ".json");
                proof {
                    reveal_strlit("netbench-client-");
                    reveal_strlit("client-worker");
                    reveal_strlit(".json");
                    reveal_strlit("netbench-client-client-worker.json");
                    assert(out@ =~= "netbench-client-client-worker.json"@);
                }
                let r = WorkloadCommand {
                    program: owned("netbench-collector"),
                    args,
                    env,
                    stdout_path: Some(out),
                };
                assert(strings_view(r.args@) =~= seq![
                    "netbench-driver-s2n-quic-client"@,
                    "--scenario"@,
                    "request_response.json"@,
                ]);
                assert(env_view(r.env@) =~= seq![("SERVER_0"@, strings_view(ctx.0@)[0])]);
                r
            },
            None => {
                let mut args: Vec<String> = Vec::new();
                args.push(owned("sim_netbench_client.sh"));
                args.push(self.name());
                let r = WorkloadCommand {
                    program: owned("sh"),
                    args,
                    env: Vec::new(),
                    stdout_path: None,
                };
                assert(strings_view(r.args@) =~= seq![
                    "sim_netbench_client.sh"@,
                    client_worker_name(self.spec_id()),
                ]);
                r
            },
        }
    }

    /// Records the started workload's process id: the worker leaves `Run`
    /// for `Running` with that id.
    pub fn on_workload_started(&mut self, pid: u32)
        requires
            old(self).current() == WorkerState::Run,
        ensures
            final(self).current() == WorkerState::Running(pid),
            final(self).peer() == old(self).peer(),
            final(self).recorder() == old(self).recorder(),
            final(self).spec_id() == old(self).spec_id(),
            final(self).ctx() == old(self).ctx(),
    {
        self.core.set_state(WorkerState::Running(pid));
    }

    /// The bytes that tell the coordinator the worker's state.
    pub fn notify_bytes(&self) -> (r: Vec<u8>)
        ensures
            r@ == self.current().bytes_spec(),
    {
        self.core.notify_bytes()
    }

    /// Moves to the next state.
    pub fn advance(&mut self)
        ensures
            final(self).current() == old(self).current().next_spec(),
            final(self).peer() == old(self).peer(),
            final(self).recorder() == old(self).recorder(),
            final(self).spec_id() == old(self).spec_id(),
            final(self).ctx() == old(self).ctx(),
    {
        self.core.advance();
    }

    /// Handles one read from the coordinator; see `ProtocolCore::on_recv`.
    pub fn on_recv(&mut self, received: Result<Msg, RussulaError>) -> (r: AwaitOutcome)
        requires
            old(self).current().step_spec() is AwaitNext,
            old(self).recorder().received() < u64::MAX,
        ensures
            final(self).peer() == old(self).peer(),
            final(self).spec_id() == old(self).spec_id(),
            final(self).ctx() == old(self).ctx(),
            match received {
                Ok(m) => {
                    &&& final(self).recorder().received() == old(self).recorder().received() + 1
                    &&& final(self).recorder().sent() == old(self).recorder().sent()
                    &&& if spec_matches_transition_msg(old(self).current(), m@.data) {
                        &&& r matches AwaitOutcome::Transitioned(m2) && m2@ == m@
                        &&& final(self).current() == old(self).current().next_spec()
                    } else {
                        &&& r matches AwaitOutcome::Continue(m2) && m2@ == m@
                        &&& final(self).current() == old(self).current()
                    }
                },
                Err(e) => {
                    &&& final(self).current() == old(self).current()
                    &&& final(self).recorder() == old(self).recorder()
                    &&& if e is NetworkBlocked {
                        r is Blocked
                    } else {
                        r == AwaitOutcome::Failed(e)
                    }
                },
            },
    {
        self.core.on_recv(received)
    }

    /// Records the coordinator state that `msg` carries; see
    /// `ProtocolCore::update_peer_state`.
    pub fn update_peer_state(&mut self, msg: &Msg) -> (r: Result<(), RussulaError>)
        ensures
            final(self).current() == old(self).current(),
            final(self).recorder() == old(self).recorder(),
            final(self).spec_id() == old(self).spec_id(),
            final(self).ctx() == old(self).ctx(),
            match CoordState::decode_spec(msg@.data) {
                Some(p) => r is Ok && final(self).peer() == p,
                None => r matches Err(e) && e is BadMsg && final(self).peer() == old(self).peer(),
            },
    {
        self.core.update_peer_state(msg)
    }

    /// Whether the worker has reached `target` (process ids aside).
    pub fn poll_status(&self, target: &WorkerState) -> (r: PollStatus)
        ensures
            (r == PollStatus::Ready) == (client_worker_state_erased(self.current()) == client_worker_state_erased(
                *target,
            )),
    {
        proof {
            crate::russula::netbench::lemma_client_worker_same_state(self.current(), *target);
        }
        self.core.poll_status(target)
    }
}

} // verus!
