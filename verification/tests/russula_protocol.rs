use netbench_orchestrator::russula::error::RussulaError;
use netbench_orchestrator::russula::event::{EventRecorder, EventType};
use netbench_orchestrator::russula::netbench::client_coord::{
    CoordProtocol as ClientCoordProtocol, CoordState as ClientCoordState,
};
use netbench_orchestrator::russula::netbench::client_worker::{
    WorkerProtocol as ClientWorkerProtocol, WorkerState as ClientWorkerState,
};
use netbench_orchestrator::russula::netbench::server_coord::{CoordProtocol, CoordState};
use netbench_orchestrator::russula::netbench::server_worker::{
    WorkerProtocol, WorkerState, PLACEHOLDER_PID,
};
use netbench_orchestrator::russula::netbench::PeerList;
use netbench_orchestrator::russula::netbench_server::{
    NetbenchServerStateMachine, NetbenchWorkerServerProtocol as JointWorkerProtocol,
};
use netbench_orchestrator::russula::netbench_server_coord::{
    CoordNetbenchServerState, NetbenchCoordServerProtocol,
};
use netbench_orchestrator::russula::netbench_server_worker::{
    NetbenchWorkerServerProtocol, WorkerNetbenchServerState,
};
use netbench_orchestrator::russula::network_utils::{read_frame, write_frame, Msg};
use netbench_orchestrator::russula::protocol::{
    all_at_state, ignored_when_done, AwaitOutcome, PollStatus, RunAction,
};
use netbench_orchestrator::russula::states::{StateApi, TransitionStep};
use netbench_orchestrator::russula::ConnectRetry;

fn msg(bytes: &[u8]) -> Msg {
    Msg::new(bytes.to_vec())
}

fn dbg(s: &str) -> String {
    s.to_string()
}

#[test]
fn state_wire_bytes_are_json_names() {
    assert_eq!(CoordState::Ready.as_bytes(), b"\"Ready\"".to_vec());
    assert_eq!(CoordState::WorkerKilled.as_bytes(), b"\"WorkerKilled\"".to_vec());
    assert_eq!(WorkerState::RunningAwaitKill(42).as_bytes(), b"\"RunningAwaitKill\"".to_vec());
    assert_eq!(WorkerState::Killing(7).as_bytes(), b"\"Killing\"".to_vec());
    assert_eq!(ClientWorkerState::RunningAwaitComplete(9).as_bytes(), b"\"RunningAwaitComplete\"".to_vec());
    assert_eq!(ClientCoordState::WorkersRunning.as_bytes(), b"\"WorkersRunning\"".to_vec());
}

#[test]
fn state_bytes_read_back() {
    for s in [
        CoordState::CheckWorker,
        CoordState::Ready,
        CoordState::RunWorker,
        CoordState::WorkersRunning,
        CoordState::KillWorker,
        CoordState::WorkerKilled,
        CoordState::Done,
    ] {
        assert_eq!(CoordState::from_bytes(&s.as_bytes()).unwrap(), s);
    }
    assert_eq!(
        WorkerState::from_bytes(&WorkerState::Killing(55).as_bytes()).unwrap(),
        WorkerState::Killing(0)
    );
    assert_eq!(
        ClientWorkerState::from_bytes(&ClientWorkerState::Running(3).as_bytes()).unwrap(),
        ClientWorkerState::Running(0)
    );
    assert_eq!(
        ClientCoordState::from_bytes(b"\"Done\"").unwrap(),
        ClientCoordState::Done
    );
}

#[test]
fn unknown_state_bytes_are_bad_msg() {
    assert!(matches!(CoordState::from_bytes(b"Ready"), Err(RussulaError::BadMsg { .. })));
    assert!(matches!(WorkerState::from_bytes(b"\"Nope\""), Err(RussulaError::BadMsg { .. })));
    assert!(matches!(ClientCoordState::from_bytes(b""), Err(RussulaError::BadMsg { .. })));
    assert!(matches!(
        ClientCoordState::from_bytes(b"\"KillWorker\""),
        Err(RussulaError::BadMsg { .. })
    ));
    assert_eq!(
        netbench_orchestrator::russula::states::unknown_state_error().to_display_string(),
        "BadMsg received a malformed msg"
    );
}

#[test]
fn server_coord_transition_steps() {
    match CoordState::CheckWorker.transition_step() {
        TransitionStep::AwaitNext(b) => assert_eq!(b, b"\"Ready\"".to_vec()),
        other => panic!("{:?}", other),
    }
    match CoordState::RunWorker.transition_step() {
        TransitionStep::AwaitNext(b) => assert_eq!(b, b"\"RunningAwaitKill\"".to_vec()),
        other => panic!("{:?}", other),
    }
    assert!(matches!(CoordState::Ready.transition_step(), TransitionStep::UserDriven));
    assert!(matches!(CoordState::Done.transition_step(), TransitionStep::Finished));
    assert!(matches!(WorkerState::Run.transition_step(), TransitionStep::SelfDriven));
    match WorkerState::Stopped.transition_step() {
        TransitionStep::AwaitNext(b) => assert_eq!(b, b"\"Done\"".to_vec()),
        other => panic!("{:?}", other),
    }
    match ClientWorkerState::Running(1).transition_step() {
        TransitionStep::AwaitNext(b) => assert_eq!(b, b"\"WorkersRunning\"".to_vec()),
        other => panic!("{:?}", other),
    }
}

#[test]
fn machines_run_forward_to_done() {
    let mut c = CoordState::CheckWorker;
    let mut steps = 0;
    while c != CoordState::Done {
        c = c.next_state();
        steps += 1;
    }
    assert_eq!(steps, 6);
    assert_eq!(CoordState::Done.next_state(), CoordState::Done);
    assert_eq!(WorkerState::Run.next_state(), WorkerState::RunningAwaitKill(PLACEHOLDER_PID));
    assert_eq!(WorkerState::RunningAwaitKill(77).next_state(), WorkerState::Killing(77));
    assert_eq!(ClientWorkerState::Running(5).next_state(), ClientWorkerState::RunningAwaitComplete(5));
    assert_eq!(ClientCoordState::WorkersRunning.next_state(), ClientCoordState::Done);
    assert_eq!(WorkerState::Done.next_state(), WorkerState::Done);
}

#[test]
fn name_prefixes_and_names() {
    assert_eq!(CoordState::Ready.name_prefix(), "server-coord");
    assert_eq!(WorkerState::Ready.name_prefix(), "worker");
    assert_eq!(ClientCoordState::Ready.name_prefix(), "client-coord");
    assert_eq!(ClientWorkerState::Ready.name_prefix(), "client-worker");
    assert_eq!(CoordProtocol::new().name(), "server-coord-0");
    assert_eq!(ClientCoordProtocol::new().name(), "client-c-0");
    assert_eq!(WorkerProtocol::new(7, None).name(), "[worker-7]");
    assert_eq!(ClientWorkerProtocol::new(12, None).name(), "[client-worker-12]");
    assert_eq!(NetbenchWorkerServerProtocol::new(0).name(), "[worker-0]");
    assert_eq!(NetbenchCoordServerProtocol::new().name(), "[coord-0]");
}

#[test]
fn coordinator_run_actions() {
    let mut c = CoordProtocol::new();
    assert_eq!(c.run_action(), RunAction::NotifyAndAwait);
    c.advance();
    assert_eq!(c.state(), CoordState::Ready);
    assert_eq!(c.run_action(), RunAction::Advance);
    assert!(c.is_ready_state());
    c.advance();
    c.advance();
    assert!(c.is_worker_running_state());
    assert_eq!(c.run_action(), RunAction::Advance);
    let mut cc = ClientCoordProtocol::new();
    cc.advance();
    cc.advance();
    cc.advance();
    assert_eq!(cc.state(), ClientCoordState::WorkersRunning);
    assert_eq!(cc.run_action(), RunAction::NotifyAndAwait);
}

#[test]
fn worker_run_actions() {
    let mut w = WorkerProtocol::new(1, None);
    assert_eq!(w.run_action(), RunAction::Await);
    w.advance();
    assert_eq!(w.run_action(), RunAction::NotifyAndAwait);
    w.advance();
    assert_eq!(w.run_action(), RunAction::StartWorkload);
    w.on_workload_started(4321);
    assert_eq!(w.state(), WorkerState::RunningAwaitKill(4321));
    w.advance();
    assert_eq!(w.run_action(), RunAction::StopWorkload { pid: 4321 });
    let mut cw = ClientWorkerProtocol::new(1, None);
    cw.advance();
    cw.advance();
    cw.on_workload_started(99);
    cw.advance();
    assert_eq!(cw.run_action(), RunAction::CheckWorkload { pid: 99 });
}

#[test]
fn on_recv_moves_only_on_the_awaited_message() {
    let mut c = CoordProtocol::new();
    match c.on_recv(Ok(msg(b"\"WaitCoordInit\""))) {
        AwaitOutcome::Continue(m) => assert_eq!(m.as_bytes(), b"\"WaitCoordInit\""),
        _ => panic!("expected Continue"),
    }
    assert_eq!(c.state(), CoordState::CheckWorker);
    assert_eq!(c.event_recorder().recv_count(), 1);
    match c.on_recv(Ok(msg(b"\"Ready\""))) {
        AwaitOutcome::Transitioned(m) => assert_eq!(m.as_bytes(), b"\"Ready\""),
        _ => panic!("expected Transitioned"),
    }
    assert_eq!(c.state(), CoordState::Ready);
    assert_eq!(c.event_recorder().recv_count(), 2);
    assert_eq!(c.event_recorder().send_count(), 0);
}

#[test]
fn on_recv_errors() {
    let mut w = WorkerProtocol::new(3, None);
    assert!(matches!(
        w.on_recv(Err(RussulaError::NetworkBlocked { dbg: dbg("later") })),
        AwaitOutcome::Blocked
    ));
    match w.on_recv(Err(RussulaError::NetworkFail { dbg: dbg("gone") })) {
        AwaitOutcome::Failed(RussulaError::NetworkFail { dbg }) => assert_eq!(dbg, "gone"),
        _ => panic!("expected Failed"),
    }
    assert_eq!(w.state(), WorkerState::WaitCoordInit);
    assert_eq!(w.event_recorder().recv_count(), 0);
}

#[test]
fn update_peer_state_records_or_rejects() {
    let mut c = CoordProtocol::new();
    assert!(c.update_peer_state(&msg(b"\"Stopped\"")).is_ok());
    assert_eq!(c.worker_state(), WorkerState::Stopped);
    assert!(matches!(
        c.update_peer_state(&msg(b"garbage")),
        Err(RussulaError::BadMsg { .. })
    ));
    assert_eq!(c.worker_state(), WorkerState::Stopped);
    let mut w = ClientWorkerProtocol::new(2, None);
    assert!(w.update_peer_state(&msg(b"\"RunWorker\"")).is_ok());
    assert_eq!(w.coord_state(), ClientCoordState::RunWorker);
}

#[test]
fn poll_status_against_target() {
    let mut c = CoordProtocol::new();
    assert_eq!(c.poll_status(&CoordState::Ready), PollStatus::Pending);
    c.advance();
    assert_eq!(c.poll_status(&CoordState::Ready), PollStatus::Ready);
    let mut w = WorkerProtocol::new(1, None);
    w.advance();
    w.advance();
    w.on_workload_started(5);
    assert_eq!(w.poll_status(&WorkerState::RunningAwaitKill(0)), PollStatus::Ready);
    assert!(!w.is_done_state());
}

/// Runs a coordinator and a worker against each other, each reading the
/// other's current state, until both are done.
#[test]
fn server_pair_runs_to_done() {
    let mut c = CoordProtocol::new();
    let mut w = WorkerProtocol::new(1, None);
    let mut moves = 0;
    while !(c.is_done_state() && w.is_done_state()) {
        assert!(moves < 12, "pair got stuck");
        let cb = c.notify_bytes();
        let wb = w.notify_bytes();
        let moved_worker = match w.run_action() {
            RunAction::Await | RunAction::NotifyAndAwait => {
                matches!(w.on_recv(Ok(Msg::new(cb))), AwaitOutcome::Transitioned(_))
            }
            RunAction::StartWorkload => {
                w.on_workload_started(2024);
                true
            }
            RunAction::StopWorkload { .. } | RunAction::CheckWorkload { .. } => {
                w.advance();
                true
            }
            _ => false,
        };
        if !moved_worker {
            match c.run_action() {
                RunAction::NotifyAndAwait | RunAction::Await => {
                    assert!(matches!(c.on_recv(Ok(Msg::new(wb))), AwaitOutcome::Transitioned(_)));
                }
                RunAction::Advance => c.advance(),
                other => panic!("coordinator cannot move: {:?}", other),
            }
        }
        moves += 1;
    }
    assert_eq!(moves, 12);
    assert_eq!(c.state(), CoordState::Done);
    assert_eq!(w.state(), WorkerState::Done);
}

#[test]
fn client_pair_runs_to_done() {
    let mut c = ClientCoordProtocol::new();
    let mut w = ClientWorkerProtocol::new(1, None);
    let mut moves = 0;
    while !(c.is_done_state() && w.is_done_state()) {
        assert!(moves < 10, "pair got stuck");
        let cb = c.notify_bytes();
        let wb = w.notify_bytes();
        let moved_worker = match w.run_action() {
            RunAction::Await | RunAction::NotifyAndAwait => {
                matches!(w.on_recv(Ok(Msg::new(cb))), AwaitOutcome::Transitioned(_))
            }
            RunAction::StartWorkload => {
                w.on_workload_started(7);
                true
            }
            RunAction::CheckWorkload { .. } | RunAction::StopWorkload { .. } => {
                w.advance();
                true
            }
            _ => false,
        };
        if !moved_worker {
            match c.run_action() {
                RunAction::NotifyAndAwait | RunAction::Await => {
                    assert!(matches!(c.on_recv(Ok(Msg::new(wb))), AwaitOutcome::Transitioned(_)));
                }
                RunAction::Advance => c.advance(),
                other => panic!("coordinator cannot move: {:?}", other),
            }
        }
        moves += 1;
    }
    assert_eq!(moves, 10);
}

#[test]
fn workload_commands() {
    let w = WorkerProtocol::new(4, Some(PeerList(vec!["10.0.0.1:4433".to_string()])));
    let cmd = w.workload_command();
    assert_eq!(cmd.program, "/home/ec2-user/bin/netbench-collector");
    assert_eq!(cmd.args, vec!["/home/ec2-user/bin/netbench-driver-s2n-quic-server".to_string()]);
    assert_eq!(
        cmd.env,
        vec![
            ("SCENARIO".to_string(), "/home/ec2-user/request_response.json".to_string()),
            ("SERVER_0".to_string(), "10.0.0.1:4433".to_string()),
        ]
    );
    let sim = WorkerProtocol::new(4, None).workload_command();
    assert_eq!(sim.program, "sh");
    assert_eq!(sim.args, vec!["sim_netbench_server.sh".to_string(), "[worker-4]".to_string()]);
    let cw = ClientWorkerProtocol::new(2, Some(PeerList(vec!["1.2.3.4:4433".to_string()])));
    let ccmd = cw.workload_command();
    assert_eq!(ccmd.program, "netbench-collector");
    assert_eq!(
        ccmd.args,
        vec![
            "netbench-driver-s2n-quic-client".to_string(),
            "--scenario".to_string(),
            "request_response.json".to_string()
        ]
    );
    assert_eq!(ccmd.stdout_path, Some("netbench-client-client-worker.json".to_string()));
    let csim = ClientWorkerProtocol::new(2, None).workload_command();
    assert_eq!(csim.args, vec!["sim_netbench_client.sh".to_string(), "[client-worker-2]".to_string()]);
}

#[test]
fn frames_read_back() {
    let m = msg(b"\"Ready\"");
    assert_eq!(m.len(), 7);
    let mut wire = write_frame(&m);
    assert_eq!(wire[0], 7);
    wire.extend_from_slice(b"\x04more");
    let (read, consumed) = read_frame(&wire).unwrap();
    assert_eq!(read.as_bytes(), b"\"Ready\"");
    assert_eq!(consumed, 8);
    let (next, n2) = read_frame(&wire[consumed..]).unwrap();
    assert_eq!(next.as_bytes(), b"more");
    assert_eq!(n2, 5);
}

#[test]
fn frame_edge_cases() {
    assert!(matches!(read_frame(&[]), Err(RussulaError::NetworkBlocked { .. })));
    assert!(matches!(read_frame(&[5]), Err(RussulaError::NetworkBlocked { .. })));
    assert!(matches!(read_frame(&[5, 1, 2]), Err(RussulaError::BadMsg { .. })));
    let (empty, n) = read_frame(&[0]).unwrap();
    assert_eq!(empty.as_bytes(), b"");
    assert_eq!(n, 1);
    let long = Msg::new(vec![1u8; 300]);
    assert_eq!(long.len(), 44);
}

#[test]
fn event_recorder_counts() {
    let mut r = EventRecorder::default();
    r.process(EventType::RecvMsg);
    r.process(EventType::RecvMsg);
    r.process(EventType::SendMsg);
    assert_eq!(r.recv_count(), 2);
    assert_eq!(r.send_count(), 1);
    assert_eq!(r.to_display_string(), "send_cnt: 1, recv_cnt: 2");
    assert_eq!(EventRecorder::new().to_display_string(), "send_cnt: 0, recv_cnt: 0");
}

#[test]
fn russula_errors_fatality_and_display() {
    assert!(RussulaError::NetworkFail { dbg: dbg("x") }.is_fatal());
    assert!(!RussulaError::NetworkBlocked { dbg: dbg("x") }.is_fatal());
    assert!(RussulaError::NetworkConnectionRefused { dbg: dbg("x") }.is_fatal());
    assert!(RussulaError::BadMsg { dbg: dbg("x") }.is_fatal());
    assert_eq!(RussulaError::BadMsg { dbg: dbg("oops") }.to_display_string(), "BadMsg oops");
    assert_eq!(
        RussulaError::NetworkBlocked { dbg: dbg("wait") }.to_display_string(),
        "NetworkBlocked wait"
    );
    assert!(ignored_when_done(&RussulaError::NetworkFail { dbg: dbg("x") }));
    assert!(ignored_when_done(&RussulaError::NetworkConnectionRefused { dbg: dbg("x") }));
    assert!(!ignored_when_done(&RussulaError::BadMsg { dbg: dbg("x") }));
}

#[test]
fn all_instances_at_state() {
    let states = vec![CoordState::Ready, CoordState::Ready];
    assert!(all_at_state(&states, &CoordState::Ready));
    let mixed = vec![CoordState::Ready, CoordState::Done];
    assert!(!all_at_state(&mixed, &CoordState::Ready));
    let none: Vec<CoordState> = vec![];
    assert!(all_at_state(&none, &CoordState::Done));
}

#[test]
fn connect_retries_three_times() {
    let mut r = ConnectRetry::new();
    assert!(r.next_attempt().is_ok());
    assert!(r.next_attempt().is_ok());
    assert!(r.next_attempt().is_ok());
    assert!(matches!(
        r.next_attempt(),
        Err(RussulaError::NetworkConnectionRefused { .. })
    ));
}

#[test]
fn earlier_server_protocol() {
    assert_eq!(WorkerNetbenchServerState::Ready.as_bytes(), b"server_ready".to_vec());
    assert_eq!(WorkerNetbenchServerState::Run.as_bytes(), b"server_wait_peer_done".to_vec());
    assert_eq!(
        WorkerNetbenchServerState::from_bytes(b"server_done").unwrap(),
        WorkerNetbenchServerState::Done
    );
    assert!(matches!(
        WorkerNetbenchServerState::from_bytes(b"server_x"),
        Err(RussulaError::BadMsg { .. })
    ));
    assert_eq!(CoordNetbenchServerState::KillPeer.as_bytes(), b"\"KillPeer\"".to_vec());
    let mut c = NetbenchCoordServerProtocol::new();
    assert_eq!(c.poll_ready(), PollStatus::Pending);
    assert_eq!(c.run_action(), RunAction::NotifyAndAwait);
    c.advance();
    assert_eq!(c.poll_ready(), PollStatus::Ready);
    let mut w = NetbenchWorkerServerProtocol::new(3);
    assert_eq!(w.run_action(), RunAction::Await);
    w.advance();
    assert_eq!(w.poll_ready(), PollStatus::Ready);
    assert!(CoordNetbenchServerState::Done.eq(&CoordNetbenchServerState::Done));
    assert!(!WorkerNetbenchServerState::Run.eq(&WorkerNetbenchServerState::Done));
    let joint = JointWorkerProtocol::default();
    assert!(matches!(joint.state(), NetbenchServerStateMachine::AA_1(_)));
}
