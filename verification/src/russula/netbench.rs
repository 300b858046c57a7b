//! The netbench protocols: a server pair (coordinator and server workers)
//! and a client pair (coordinator and client workers).
//!
//! Server pair, coordinator on the left, worker on the right:
//!
//! ```text
//! CheckWorker   --------->  WaitCoordInit
//! CheckWorker   <---------  Ready
//! Ready (user)
//! RunWorker     --------->  Ready -> Run (self)
//! RunWorker     <---------  RunningAwaitKill
//! WorkersRunning (user)
//! KillWorker    --------->  RunningAwaitKill -> Killing (self)
//! WorkerKilled  <---------  Stopped
//! Done          --------->  Stopped -> Done
//! ```
//!
//! Client pair:
//!
//! ```text
//! CheckWorker   --------->  WaitCoordInit
//! CheckWorker   <---------  Ready
//! Ready (user)
//! RunWorker     --------->  Ready -> Run (self)
//! RunWorker     <---------  Running
//! WorkersRunning --------->  Running -> RunningAwaitComplete (self)
//! WorkersRunning <---------  Stopped
//! Done          --------->  Stopped -> Done
//! ```

pub mod server_coord;
pub mod server_worker;
pub mod client_coord;
pub mod client_worker;

use crate::russula::netbench::server_coord::{coord_state_name, CoordState};
use crate::russula::netbench::server_worker::{
    worker_state_bytes, worker_state_erased, worker_state_name, WorkerState,
};
use crate::russula::json_name::{json_variant_text, lemma_json_name_reads_as, letters_only};
use crate::russula::states::{joint_step, lemma_json_name_first, lemma_json_name_len, StateApi};
use vstd::prelude::*;

verus! {

/// The addresses (`ip:port`) of the netbench peers a worker talks to.
#[derive(Debug, Clone)]
pub struct PeerList(pub Vec<String>);

/// A process for a worker to start: the program, its arguments, the
/// environment variables set for it, and the file its output goes to, if
/// any.
#[derive(Debug, Clone)]
pub struct WorkloadCommand {
    pub program: String,
    pub args: Vec<String>,
    pub env: Vec<(String, String)>,
    pub stdout_path: Option<String>,
}

/// The texts of a list of environment variable settings.
pub open spec fn env_view(env: Seq<(String, String)>) -> Seq<(Seq<char>, Seq<char>)> {
    env.map_values(|kv: (String, String)| (kv.0@, kv.1@))
}

/// Where a (coordinator, worker) pair of the server protocol stands in the
/// protocol's run: positions 0 to 12 from the initial pair to both done, or
/// none for a pair the run never reaches.
pub open spec fn server_pair_position(c: CoordState, w: WorkerState) -> Option<nat> {
    match (c, w) {
        (CoordState::CheckWorker, WorkerState::WaitCoordInit) => Some(0),
        (CoordState::CheckWorker, WorkerState::Ready) => Some(1),
        (CoordState::Ready, WorkerState::Ready) => Some(2),
        (CoordState::RunWorker, WorkerState::Ready) => Some(3),
        (CoordState::RunWorker, WorkerState::Run) => Some(4),
        (CoordState::RunWorker, WorkerState::RunningAwaitKill(_)) => Some(5),
        (CoordState::WorkersRunning, WorkerState::RunningAwaitKill(_)) => Some(6),
        (CoordState::KillWorker, WorkerState::RunningAwaitKill(_)) => Some(7),
        (CoordState::KillWorker, WorkerState::Killing(_)) => Some(8),
        (CoordState::KillWorker, WorkerState::Stopped) => Some(9),
        (CoordState::WorkerKilled, WorkerState::Stopped) => Some(10),
        (CoordState::Done, WorkerState::Stopped) => Some(11),
        (CoordState::Done, WorkerState::Done) => Some(12),
        _ => None,
    }
}

/// The length of the coordinator state's name.
pub open spec fn coord_name_len(s: CoordState) -> nat {
    match s {
        CoordState::CheckWorker => 11,
        CoordState::Ready => 5,
        CoordState::RunWorker => 9,
        CoordState::WorkersRunning => 14,
        CoordState::KillWorker => 10,
        CoordState::WorkerKilled => 12,
        CoordState::Done => 4,
    }
}

/// The length of the worker state's name.
pub open spec fn worker_name_len(s: WorkerState) -> nat {
    match s {
        WorkerState::WaitCoordInit => 13,
        WorkerState::Ready => 5,
        WorkerState::Run => 3,
        WorkerState::RunningAwaitKill(_) => 16,
        WorkerState::Killing(_) => 7,
        WorkerState::Stopped => 7,
        WorkerState::Done => 4,
    }
}

proof fn lemma_server_coord_len(s: CoordState)
    ensures
        s.bytes_spec().len() == coord_name_len(s) + 2,
{
    reveal_strlit("CheckWorker");
    reveal_strlit("Ready");
    reveal_strlit("RunWorker");
    reveal_strlit("WorkersRunning");
    reveal_strlit("KillWorker");
    reveal_strlit("WorkerKilled");
    reveal_strlit("Done");
    lemma_json_name_len(coord_state_name(s));
}

proof fn lemma_server_worker_len(s: WorkerState)
    ensures
        s.bytes_spec().len() == worker_name_len(s) + 2,
{
    reveal_strlit("WaitCoordInit");
    reveal_strlit("Ready");
    reveal_strlit("Run");
    reveal_strlit("RunningAwaitKill");
    reveal_strlit("Killing");
    reveal_strlit("Stopped");
    reveal_strlit("Done");
    lemma_json_name_len(worker_state_name(s));
}

proof fn lemma_server_all_lengths()
    ensures
        CoordState::CheckWorker.bytes_spec().len() == 13,
        CoordState::Ready.bytes_spec().len() == 7,
        CoordState::RunWorker.bytes_spec().len() == 11,
        CoordState::WorkersRunning.bytes_spec().len() == 16,
        CoordState::KillWorker.bytes_spec().len() == 12,
        CoordState::WorkerKilled.bytes_spec().len() == 14,
        CoordState::Done.bytes_spec().len() == 6,
        WorkerState::WaitCoordInit.bytes_spec().len() == 15,
        WorkerState::Ready.bytes_spec().len() == 7,
        WorkerState::Run.bytes_spec().len() == 5,
        WorkerState::RunningAwaitKill(0).bytes_spec().len() == 18,
        WorkerState::Killing(0).bytes_spec().len() == 9,
        WorkerState::Stopped.bytes_spec().len() == 9,
        WorkerState::Done.bytes_spec().len() == 6,
{
    lemma_server_coord_len(CoordState::CheckWorker);
    lemma_server_coord_len(CoordState::Ready);
    lemma_server_coord_len(CoordState::RunWorker);
    lemma_server_coord_len(CoordState::WorkersRunning);
    lemma_server_coord_len(CoordState::KillWorker);
    lemma_server_coord_len(CoordState::WorkerKilled);
    lemma_server_coord_len(CoordState::Done);
    lemma_server_worker_len(WorkerState::WaitCoordInit);
    lemma_server_worker_len(WorkerState::Ready);
    lemma_server_worker_len(WorkerState::Run);
    lemma_server_worker_len(WorkerState::RunningAwaitKill(0));
    lemma_server_worker_len(WorkerState::Killing(0));
    lemma_server_worker_len(WorkerState::Stopped);
    lemma_server_worker_len(WorkerState::Done);
}

proof fn lemma_server_killing_stopped_differ(p: u32)
    ensures
        worker_state_bytes(WorkerState::Killing(p)) != worker_state_bytes(WorkerState::Stopped),
{
    reveal_strlit("Killing");
    reveal_strlit("Stopped");
    lemma_json_name_first("Killing"@);
    lemma_json_name_first("Stopped"@);
}

/// Each server state's bytes read as its own name and as no other.
proof fn lemma_server_names_read_back(s: CoordState, w: WorkerState)
    ensures
        forall|x: CoordState|
            json_variant_text(s.bytes_spec(), #[trigger] coord_state_name(x)) <==> s.bytes_spec()
                == x.bytes_spec(),
        forall|x: WorkerState|
            json_variant_text(w.bytes_spec(), #[trigger] worker_state_name(x)) <==> w.bytes_spec()
                == x.bytes_spec(),
{
    reveal_strlit("CheckWorker");
    reveal_strlit("Ready");
    reveal_strlit("RunWorker");
    reveal_strlit("WorkersRunning");
    reveal_strlit("KillWorker");
    reveal_strlit("WorkerKilled");
    reveal_strlit("Done");
    reveal_strlit("WaitCoordInit");
    reveal_strlit("Run");
    reveal_strlit("RunningAwaitKill");
    reveal_strlit("Killing");
    reveal_strlit("Stopped");
    assert forall|x: CoordState| letters_only(#[trigger] coord_state_name(x)) by {
        assert forall|i: int| 0 <= i < coord_state_name(x).len() implies ('A' <= #[trigger] coord_state_name(x)[i] <= 'Z'
            || 'a' <= coord_state_name(x)[i] <= 'z') by {
        }
    }
    assert forall|x: WorkerState| letters_only(#[trigger] worker_state_name(x)) by {
        assert forall|i: int| 0 <= i < worker_state_name(x).len() implies ('A' <= #[trigger] worker_state_name(x)[i] <= 'Z'
            || 'a' <= worker_state_name(x)[i] <= 'z') by {
        }
    }
    assert forall|x: CoordState|
        json_variant_text(s.bytes_spec(), #[trigger] coord_state_name(x)) <==> s.bytes_spec()
            == x.bytes_spec() by {
        lemma_json_name_reads_as(coord_state_name(s), coord_state_name(x));
    }
    assert forall|x: WorkerState|
        json_variant_text(w.bytes_spec(), #[trigger] worker_state_name(x)) <==> w.bytes_spec()
            == x.bytes_spec() by {
        lemma_json_name_reads_as(worker_state_name(w), worker_state_name(x));
    }
}

/// Every coordinator state reads back from its own bytes.
pub proof fn lemma_server_coord_state_roundtrip(s: CoordState)
    ensures
        CoordState::decode_spec(s.bytes_spec()) == Some(s),
{
    lemma_server_names_read_back(s, WorkerState::Done);
    lemma_server_all_lengths();
}

/// Every worker state reads back from its own bytes, with its process id
/// dropped.
pub proof fn lemma_server_worker_state_roundtrip(s: WorkerState)
    ensures
        WorkerState::decode_spec(s.bytes_spec()) == Some(worker_state_erased(s)),
{
    lemma_server_names_read_back(CoordState::Done, s);
    lemma_server_all_lengths();
    lemma_server_worker_len(s);
    lemma_server_killing_stopped_differ(0);
    match s {
        WorkerState::Killing(p) => {
            assert(s.bytes_spec() == WorkerState::Killing(0).bytes_spec());
        },
        WorkerState::RunningAwaitKill(p) => {
            assert(s.bytes_spec() == WorkerState::RunningAwaitKill(0).bytes_spec());
        },
        _ => {},
    }
}

/// Two worker states are the same on the wire exactly when they differ at
/// most in their process ids.
pub proof fn lemma_server_worker_same_state(a: WorkerState, b: WorkerState)
    ensures
        (a.bytes_spec() == b.bytes_spec()) <==> (worker_state_erased(a) == worker_state_erased(b)),
{
    lemma_server_worker_state_roundtrip(a);
    lemma_server_worker_state_roundtrip(b);
}

/// Two coordinator states are the same on the wire exactly when they are
/// equal.
pub proof fn lemma_server_coord_same_state(a: CoordState, b: CoordState)
    ensures
        (a.bytes_spec() == b.bytes_spec()) <==> (a == b),
{
    lemma_server_coord_state_roundtrip(a);
    lemma_server_coord_state_roundtrip(b);
}

/// The server pair moves in lockstep: from any pair of the protocol's run,
/// whichever side moves, the pair lands on the next position of the run.
pub proof fn lemma_server_pair_lockstep(c: CoordState, w: WorkerState, c2: CoordState, w2: WorkerState)
    requires
        server_pair_position(c, w) is Some,
        joint_step(c, w, c2, w2),
    ensures
        server_pair_position(c2, w2) == Some(server_pair_position(c, w)->0 + 1),
{
    lemma_server_all_lengths();
    lemma_server_worker_len(w);
    lemma_server_coord_len(c);
    lemma_server_killing_stopped_differ(0);
    match w {
        WorkerState::Killing(p) => lemma_server_killing_stopped_differ(p),
        _ => {},
    }
}

/// The server pair never gets stuck before both sides are done: every pair
/// of the protocol's run but the last has a move, to the next position.
pub proof fn server_pair_successor(c: CoordState, w: WorkerState) -> (r: (CoordState, WorkerState))
    requires
        server_pair_position(c, w) is Some,
        server_pair_position(c, w)->0 < 12,
    ensures
        joint_step(c, w, r.0, r.1),
        server_pair_position(r.0, r.1) == Some(server_pair_position(c, w)->0 + 1),
{
    lemma_server_all_lengths();
    lemma_server_worker_len(w);
    lemma_server_coord_len(c);
    let r = match (c, w) {
        (CoordState::CheckWorker, WorkerState::WaitCoordInit) => (c, w.next_spec()),
        (CoordState::CheckWorker, WorkerState::Ready) => (c.next_spec(), w),
        (CoordState::Ready, WorkerState::Ready) => (c.next_spec(), w),
        (CoordState::RunWorker, WorkerState::Ready) => (c, w.next_spec()),
        (CoordState::RunWorker, WorkerState::Run) => (c, w.next_spec()),
        (CoordState::RunWorker, WorkerState::RunningAwaitKill(_)) => (c.next_spec(), w),
        (CoordState::WorkersRunning, WorkerState::RunningAwaitKill(_)) => (c.next_spec(), w),
        (CoordState::KillWorker, WorkerState::RunningAwaitKill(_)) => (c, w.next_spec()),
        (CoordState::KillWorker, WorkerState::Killing(_)) => (c, w.next_spec()),
        (CoordState::KillWorker, WorkerState::Stopped) => (c.next_spec(), w),
        (CoordState::WorkerKilled, WorkerState::Stopped) => (c.next_spec(), w),
        _ => (c, w.next_spec()),
    };
    r
}

/// The server pair starts at the first position of the run, and the last
/// position is the pair with both sides done.
pub proof fn lemma_server_pair_ends()
    ensures
        server_pair_position(CoordState::CheckWorker, WorkerState::WaitCoordInit) == Some(0nat),
        forall|c: CoordState, w: WorkerState|
            server_pair_position(c, w) == Some(12nat) <==> (c == CoordState::Done && w
                == WorkerState::Done),
{
}

} // verus!

use crate::russula::netbench::client_coord::{
    client_coord_state_name, CoordState as ClientCoordState,
};
use crate::russula::netbench::client_worker::{
    client_worker_state_erased, client_worker_state_name, WorkerState as ClientWorkerState,
};

verus! {

/// The length of the client coordinator state's name.
pub open spec fn client_coord_name_len(s: ClientCoordState) -> nat {
    match s {
        ClientCoordState::CheckWorker => 11,
        ClientCoordState::Ready => 5,
        ClientCoordState::RunWorker => 9,
        ClientCoordState::WorkersRunning => 14,
        ClientCoordState::Done => 4,
    }
}

/// The length of the client worker state's name.
pub open spec fn client_worker_name_len(s: ClientWorkerState) -> nat {
    match s {
        ClientWorkerState::WaitCoordInit => 13,
        ClientWorkerState::Ready => 5,
        ClientWorkerState::Run => 3,
        ClientWorkerState::Running(_) => 7,
        ClientWorkerState::RunningAwaitComplete(_) => 20,
        ClientWorkerState::Stopped => 7,
        ClientWorkerState::Done => 4,
    }
}

proof fn lemma_client_coord_len(s: ClientCoordState)
    ensures
        s.bytes_spec().len() == client_coord_name_len(s) + 2,
{
    reveal_strlit("CheckWorker");
    reveal_strlit("Ready");
    reveal_strlit("RunWorker");
    reveal_strlit("WorkersRunning");
    reveal_strlit("Done");
    lemma_json_name_len(client_coord_state_name(s));
}

proof fn lemma_client_worker_len(s: ClientWorkerState)
    ensures
        s.bytes_spec().len() == client_worker_name_len(s) + 2,
{
    reveal_strlit("WaitCoordInit");
    reveal_strlit("Ready");
    reveal_strlit("Run");
    reveal_strlit("Running");
    reveal_strlit("RunningAwaitComplete");
    reveal_strlit("Stopped");
    reveal_strlit("Done");
    lemma_json_name_len(client_worker_state_name(s));
}

proof fn lemma_client_all_lengths()
    ensures
        ClientCoordState::CheckWorker.bytes_spec().len() == 13,
        ClientCoordState::Ready.bytes_spec().len() == 7,
        ClientCoordState::RunWorker.bytes_spec().len() == 11,
        ClientCoordState::WorkersRunning.bytes_spec().len() == 16,
        ClientCoordState::Done.bytes_spec().len() == 6,
        ClientWorkerState::WaitCoordInit.bytes_spec().len() == 15,
        ClientWorkerState::Ready.bytes_spec().len() == 7,
        ClientWorkerState::Run.bytes_spec().len() == 5,
        ClientWorkerState::Running(0).bytes_spec().len() == 9,
        ClientWorkerState::RunningAwaitComplete(0).bytes_spec().len() == 22,
        ClientWorkerState::Stopped.bytes_spec().len() == 9,
        ClientWorkerState::Done.bytes_spec().len() == 6,
{
    lemma_client_coord_len(ClientCoordState::CheckWorker);
    lemma_client_coord_len(ClientCoordState::Ready);
    lemma_client_coord_len(ClientCoordState::RunWorker);
    lemma_client_coord_len(ClientCoordState::WorkersRunning);
    lemma_client_coord_len(ClientCoordState::Done);
    lemma_client_worker_len(ClientWorkerState::WaitCoordInit);
    lemma_client_worker_len(ClientWorkerState::Ready);
    lemma_client_worker_len(ClientWorkerState::Run);
    lemma_client_worker_len(ClientWorkerState::Running(0));
    lemma_client_worker_len(ClientWorkerState::RunningAwaitComplete(0));
    lemma_client_worker_len(ClientWorkerState::Stopped);
    lemma_client_worker_len(ClientWorkerState::Done);
}

proof fn lemma_client_running_stopped_differ(p: u32)
    ensures
        ClientWorkerState::Running(p).bytes_spec() != ClientWorkerState::Stopped.bytes_spec(),
{
    reveal_strlit("Running");
    reveal_strlit("Stopped");
    lemma_json_name_first("Running"@);
    lemma_json_name_first("Stopped"@);
}

/// Each client state's bytes read as its own name and as no other.
proof fn lemma_client_names_read_back(s: ClientCoordState, w: ClientWorkerState)
    ensures
        forall|x: ClientCoordState|
            json_variant_text(s.bytes_spec(), #[trigger] client_coord_state_name(x)) <==> s.bytes_spec()
                == x.bytes_spec(),
        forall|x: ClientWorkerState|
            json_variant_text(w.bytes_spec(), #[trigger] client_worker_state_name(x)) <==> w.bytes_spec()
                == x.bytes_spec(),
{
    reveal_strlit("CheckWorker");
    reveal_strlit("Ready");
    reveal_strlit("RunWorker");
    reveal_strlit("WorkersRunning");
    reveal_strlit("Done");
    reveal_strlit("WaitCoordInit");
    reveal_strlit("Run");
    reveal_strlit("Running");
    reveal_strlit("RunningAwaitComplete");
    reveal_strlit("Stopped");
    assert forall|x: ClientCoordState| letters_only(#[trigger] client_coord_state_name(x)) by {
        assert forall|i: int| 0 <= i < client_coord_state_name(x).len() implies ('A' <= #[trigger] client_coord_state_name(x)[i] <= 'Z'
            || 'a' <= client_coord_state_name(x)[i] <= 'z') by {
        }
    }
    assert forall|x: ClientWorkerState| letters_only(#[trigger] client_worker_state_name(x)) by {
        assert forall|i: int| 0 <= i < client_worker_state_name(x).len() implies ('A' <= #[trigger] client_worker_state_name(x)[i] <= 'Z'
            || 'a' <= client_worker_state_name(x)[i] <= 'z') by {
        }
    }
    assert forall|x: ClientCoordState|
        json_variant_text(s.bytes_spec(), #[trigger] client_coord_state_name(x)) <==> s.bytes_spec()
            == x.bytes_spec() by {
        lemma_json_name_reads_as(client_coord_state_name(s), client_coord_state_name(x));
    }
    assert forall|x: ClientWorkerState|
        json_variant_text(w.bytes_spec(), #[trigger] client_worker_state_name(x)) <==> w.bytes_spec()
            == x.bytes_spec() by {
        lemma_json_name_reads_as(client_worker_state_name(w), client_worker_state_name(x));
    }
}

/// Every client coordinator state reads back from its own bytes.
pub proof fn lemma_client_coord_state_roundtrip(s: ClientCoordState)
    ensures
        ClientCoordState::decode_spec(s.bytes_spec()) == Some(s),
{
    lemma_client_names_read_back(s, ClientWorkerState::Done);
    lemma_client_all_lengths();
}

/// Every client worker state reads back from its own bytes, with its
/// process id dropped.
pub proof fn lemma_client_worker_state_roundtrip(s: ClientWorkerState)
    ensures
        ClientWorkerState::decode_spec(s.bytes_spec()) == Some(client_worker_state_erased(s)),
{
    lemma_client_names_read_back(ClientCoordState::Done, s);
    lemma_client_all_lengths();
    lemma_client_worker_len(s);
    lemma_client_running_stopped_differ(0);
    match s {
        ClientWorkerState::Running(p) => {
            assert(s.bytes_spec() == ClientWorkerState::Running(0).bytes_spec());
        },
        ClientWorkerState::RunningAwaitComplete(p) => {
            assert(s.bytes_spec() == ClientWorkerState::RunningAwaitComplete(0).bytes_spec());
        },
        _ => {},
    }
}

/// Two client worker states are the same on the wire exactly when they
/// differ at most in their process ids.
pub proof fn lemma_client_worker_same_state(a: ClientWorkerState, b: ClientWorkerState)
    ensures
        (a.bytes_spec() == b.bytes_spec()) <==> (client_worker_state_erased(a)
            == client_worker_state_erased(b)),
{
    lemma_client_worker_state_roundtrip(a);
    lemma_client_worker_state_roundtrip(b);
}

/// Two client coordinator states are the same on the wire exactly when
/// they are equal.
pub proof fn lemma_client_coord_same_state(a: ClientCoordState, b: ClientCoordState)
    ensures
        (a.bytes_spec() == b.bytes_spec()) <==> (a == b),
{
    lemma_client_coord_state_roundtrip(a);
    lemma_client_coord_state_roundtrip(b);
}

/// Where a (coordinator, worker) pair of the client protocol stands in the
/// protocol's run: positions 0 to 10 from the initial pair to both done, or
/// none for a pair the run never reaches.
pub open spec fn client_pair_position(c: ClientCoordState, w: ClientWorkerState) -> Option<nat> {
    match (c, w) {
        (ClientCoordState::CheckWorker, ClientWorkerState::WaitCoordInit) => Some(0),
        (ClientCoordState::CheckWorker, ClientWorkerState::Ready) => Some(1),
        (ClientCoordState::Ready, ClientWorkerState::Ready) => Some(2),
        (ClientCoordState::RunWorker, ClientWorkerState::Ready) => Some(3),
        (ClientCoordState::RunWorker, ClientWorkerState::Run) => Some(4),
        (ClientCoordState::RunWorker, ClientWorkerState::Running(_)) => Some(5),
        (ClientCoordState::WorkersRunning, ClientWorkerState::Running(_)) => Some(6),
        (ClientCoordState::WorkersRunning, ClientWorkerState::RunningAwaitComplete(_)) => Some(7),
        (ClientCoordState::WorkersRunning, ClientWorkerState::Stopped) => Some(8),
        (ClientCoordState::Done, ClientWorkerState::Stopped) => Some(9),
        (ClientCoordState::Done, ClientWorkerState::Done) => Some(10),
        _ => None,
    }
}

/// The client pair moves in lockstep: from any pair of the protocol's run,
/// whichever side moves, the pair lands on the next position of the run.
pub proof fn lemma_client_pair_lockstep(
    c: ClientCoordState,
    w: ClientWorkerState,
    c2: ClientCoordState,
    w2: ClientWorkerState,
)
    requires
        client_pair_position(c, w) is Some,
        joint_step(c, w, c2, w2),
    ensures
        client_pair_position(c2, w2) == Some(client_pair_position(c, w)->0 + 1),
{
    lemma_client_all_lengths();
    lemma_client_worker_len(w);
    lemma_client_coord_len(c);
    lemma_client_running_stopped_differ(0);
    match w {
        ClientWorkerState::Running(p) => lemma_client_running_stopped_differ(p),
        _ => {},
    }
}

/// The client pair never gets stuck before both sides are done: every pair
/// of the protocol's run but the last has a move, to the next position.
pub proof fn client_pair_successor(c: ClientCoordState, w: ClientWorkerState) -> (r: (
    ClientCoordState,
    ClientWorkerState,
))
    requires
        client_pair_position(c, w) is Some,
        client_pair_position(c, w)->0 < 10,
    ensures
        joint_step(c, w, r.0, r.1),
        client_pair_position(r.0, r.1) == Some(client_pair_position(c, w)->0 + 1),
{
    lemma_client_all_lengths();
    lemma_client_worker_len(w);
    lemma_client_coord_len(c);
    match (c, w) {
        (ClientCoordState::CheckWorker, ClientWorkerState::WaitCoordInit) => (c, w.next_spec()),
        (ClientCoordState::CheckWorker, ClientWorkerState::Ready) => (c.next_spec(), w),
        (ClientCoordState::Ready, ClientWorkerState::Ready) => (c.next_spec(), w),
        (ClientCoordState::RunWorker, ClientWorkerState::Ready) => (c, w.next_spec()),
        (ClientCoordState::RunWorker, ClientWorkerState::Run) => (c, w.next_spec()),
        (ClientCoordState::RunWorker, ClientWorkerState::Running(_)) => (c.next_spec(), w),
        (ClientCoordState::WorkersRunning, ClientWorkerState::Running(_)) => (c, w.next_spec()),
        (ClientCoordState::WorkersRunning, ClientWorkerState::RunningAwaitComplete(_)) => (
            c,
            w.next_spec(),
        ),
        (ClientCoordState::WorkersRunning, ClientWorkerState::Stopped) => (c.next_spec(), w),
        _ => (c, w.next_spec()),
    }
}

/// The client pair starts at the first position of the run, and the last
/// position is the pair with both sides done.
pub proof fn lemma_client_pair_ends()
    ensures
        client_pair_position(ClientCoordState::CheckWorker, ClientWorkerState::WaitCoordInit)
            == Some(0nat),
        forall|c: ClientCoordState, w: ClientWorkerState|
            client_pair_position(c, w) == Some(10nat) <==> (c == ClientCoordState::Done && w
                == ClientWorkerState::Done),
{
}

} // verus!

use crate::russula::netbench::server_coord::coord_state_rank;
use crate::russula::netbench::server_worker::worker_state_rank;
use crate::russula::netbench::client_coord::client_coord_state_rank;
use crate::russula::netbench::client_worker::client_worker_state_rank;

verus! {

/// Each server machine runs forward to `Done`: `Done` is the only state
/// without a next transition and is its own successor, and every other
/// state is followed by the next one in the run.
pub proof fn lemma_server_machines_run_to_done()
    ensures
        forall|s: CoordState| (#[trigger] s.step_spec() is Finished) <==> s == CoordState::Done,
        CoordState::Done.next_spec() == CoordState::Done,
        forall|s: CoordState|
            s != CoordState::Done ==> coord_state_rank(#[trigger] s.next_spec()) == coord_state_rank(s) + 1,
        forall|s: WorkerState| (#[trigger] s.step_spec() is Finished) <==> s == WorkerState::Done,
        WorkerState::Done.next_spec() == WorkerState::Done,
        forall|s: WorkerState|
            s != WorkerState::Done ==> worker_state_rank(#[trigger] s.next_spec()) == worker_state_rank(s) + 1,
{
}

/// Each client machine runs forward to `Done`: `Done` is the only state
/// without a next transition and is its own successor, and every other
/// state is followed by the next one in the run.
pub proof fn lemma_client_machines_run_to_done()
    ensures
        forall|s: ClientCoordState|
            (#[trigger] s.step_spec() is Finished) <==> s == ClientCoordState::Done,
        ClientCoordState::Done.next_spec() == ClientCoordState::Done,
        forall|s: ClientCoordState|
            s != ClientCoordState::Done ==> client_coord_state_rank(#[trigger] s.next_spec())
                == client_coord_state_rank(s) + 1,
        forall|s: ClientWorkerState|
            (#[trigger] s.step_spec() is Finished) <==> s == ClientWorkerState::Done,
        ClientWorkerState::Done.next_spec() == ClientWorkerState::Done,
        forall|s: ClientWorkerState|
            s != ClientWorkerState::Done ==> client_worker_state_rank(#[trigger] s.next_spec())
                == client_worker_state_rank(s) + 1,
{
}

} // verus!

use crate::russula::network_utils::{frame_bytes, lemma_frame_roundtrip, read_frame_spec, FrameRead, MsgView};

verus! {

/// What one side sends of a state, the other side reads back: the state's
/// bytes, framed as one message, are read whole from the stream (whatever
/// follows them) and decode to the same state.
pub open spec fn sent_state_reads_back<S: StateApi>(s: S, expected: S, rest: Seq<u8>) -> bool {
    let b = s.bytes_spec();
    &&& b.len() < 256
    &&& read_frame_spec(frame_bytes(MsgView { len: b.len() as u8, data: b }) + rest) == (
    FrameRead::Message { data: b, consumed: 1 + b.len() })
    &&& S::decode_spec(b) == Some(expected)
}

/// Server coordinator states survive the trip over the wire.
pub proof fn lemma_server_coord_state_over_wire(s: CoordState, rest: Seq<u8>)
    ensures
        sent_state_reads_back(s, s, rest),
{
    lemma_server_coord_len(s);
    lemma_server_coord_state_roundtrip(s);
    let b = s.bytes_spec();
    lemma_frame_roundtrip(MsgView { len: b.len() as u8, data: b }, rest);
}

/// Server worker states survive the trip over the wire, process ids aside.
pub proof fn lemma_server_worker_state_over_wire(s: WorkerState, rest: Seq<u8>)
    ensures
        sent_state_reads_back(s, worker_state_erased(s), rest),
{
    lemma_server_worker_len(s);
    lemma_server_worker_state_roundtrip(s);
    let b = s.bytes_spec();
    lemma_frame_roundtrip(MsgView { len: b.len() as u8, data: b }, rest);
}

/// Client coordinator states survive the trip over the wire.
pub proof fn lemma_client_coord_state_over_wire(s: ClientCoordState, rest: Seq<u8>)
    ensures
        sent_state_reads_back(s, s, rest),
{
    lemma_client_coord_len(s);
    lemma_client_coord_state_roundtrip(s);
    let b = s.bytes_spec();
    lemma_frame_roundtrip(MsgView { len: b.len() as u8, data: b }, rest);
}

/// Client worker states survive the trip over the wire, process ids aside.
pub proof fn lemma_client_worker_state_over_wire(s: ClientWorkerState, rest: Seq<u8>)
    ensures
        sent_state_reads_back(s, client_worker_state_erased(s), rest),
{
    lemma_client_worker_len(s);
    lemma_client_worker_state_roundtrip(s);
    let b = s.bytes_spec();
    lemma_frame_roundtrip(MsgView { len: b.len() as u8, data: b }, rest);
}

} // verus!

verus! {

/// Decoding accepts nothing but a state's name written in JSON: bytes that
/// decode to a state are JSON text that reads as that state's name, so no
/// other payload is ever taken for a state.
pub proof fn lemma_decode_accepts_only_state_bytes(b: Seq<u8>)
    ensures
        CoordState::decode_spec(b) matches Some(s) ==> json_variant_text(b, coord_state_name(s)),
        WorkerState::decode_spec(b) matches Some(s) ==> json_variant_text(b, worker_state_name(s)),
        ClientCoordState::decode_spec(b) matches Some(s) ==> json_variant_text(
            b,
            client_coord_state_name(s),
        ),
        ClientWorkerState::decode_spec(b) matches Some(s) ==> json_variant_text(
            b,
            client_worker_state_name(s),
        ),
{
}

} // verus!
