use netbench_orchestrator::cli::{
    scenario_file_name, CdkConfig, InfraScenario, NetbenchScenario, OrchestratorConfig,
};
use netbench_orchestrator::duration::{count_digits, MAX_DURATION_DIGITS};
use netbench_orchestrator::ec2_utils::instance::EndpointType;
use netbench_orchestrator::ec2_utils::launch_plan::{after_group_launch, launch_order, GroupStep};
use netbench_orchestrator::error::OrchError;
use netbench_orchestrator::russula::error::RussulaError;
use netbench_orchestrator::russula::event::{EventRecorder, EventType};
use netbench_orchestrator::russula::netbench::client_coord::CoordState as ClientCoordState;
use netbench_orchestrator::russula::netbench::server_worker::WorkerState;
use netbench_orchestrator::russula::network_utils::{read_frame, Msg};
use netbench_orchestrator::russula::states::{from_msg, trim_json_ws, StateApi};
use netbench_orchestrator::russula::ConnectRetry;
use netbench_orchestrator::ssm_utils::client::run_russula_worker;
use netbench_orchestrator::ssm_utils::netbench_driver::tcp_driver::tcp_client_driver;

fn text(v: &str) -> String {
    v.to_string()
}

fn run_config(path: &str) -> OrchestratorConfig {
    let scenario = NetbenchScenario {
        clients: vec![text("{}"), text("{}")],
        servers: vec![text("{}")],
    };
    let cdk = CdkConfig::new(text("l"), text("b"), text("c"), text("p"), text("k"), text("v"));
    OrchestratorConfig::new(path, &scenario, cdk, InfraScenario::default()).unwrap()
}

fn bad_msg_detail<T: std::fmt::Debug>(r: Result<T, RussulaError>) -> String {
    match r {
        Err(RussulaError::BadMsg { dbg }) => dbg,
        other => panic!("{:?}", other),
    }
}

#[test]
fn missing_scenario_name_error_text() {
    match scenario_file_name("dir/..") {
        Err(OrchError::Init { dbg }) => assert_eq!(dbg, "Scenario file not specified"),
        other => panic!("{:?}", other),
    }
}

#[test]
fn refused_connection_error_text() {
    let mut r = ConnectRetry::new();
    for _ in 0..3 {
        assert!(r.next_attempt().is_ok());
    }
    match r.next_attempt() {
        Err(RussulaError::NetworkConnectionRefused { dbg }) => {
            assert_eq!(dbg, "Failed to connect to peer")
        }
        other => panic!("{:?}", other),
    }
}

#[test]
fn duration_digit_bound() {
    assert_eq!(MAX_DURATION_DIGITS, 11);
    assert_eq!(count_digits("1hour 12min 5s"), 4);
    assert_eq!(count_digits("18446744073709551615s 1000000000ns"), 30);
}

#[test]
fn servers_launch_before_clients() {
    let c = run_config("a/b.json");
    assert_eq!(launch_order(&c), vec![(EndpointType::Server, 1), (EndpointType::Client, 2)]);
}

#[test]
fn group_launch_outcome() {
    let ok: Vec<Result<u32, OrchError>> = vec![Ok(3), Ok(4)];
    match after_group_launch(ok) {
        GroupStep::Proceed(v) => assert_eq!(v, vec![3, 4]),
        GroupStep::CleanupThenFail(e) => panic!("{:?}", e),
    }
    let bad: Vec<Result<u32, OrchError>> =
        vec![Err(OrchError::Ec2 { dbg: text("a") }), Err(OrchError::Ec2 { dbg: text("b") })];
    match after_group_launch(bad) {
        GroupStep::CleanupThenFail(OrchError::Ec2 { dbg }) => assert_eq!(dbg, "a"),
        _ => panic!("expected the first launch error"),
    }
}

#[test]
fn event_counts_do_not_depend_on_order() {
    let mut a = EventRecorder::new();
    a.process(EventType::SendMsg);
    a.process(EventType::RecvMsg);
    a.process(EventType::RecvMsg);
    let mut b = EventRecorder::new();
    b.process(EventType::RecvMsg);
    b.process(EventType::RecvMsg);
    b.process(EventType::SendMsg);
    assert_eq!(a.to_display_string(), "send_cnt: 1, recv_cnt: 2");
    assert_eq!(a.to_display_string(), b.to_display_string());
}

#[test]
fn ipv6_servers_are_bracketed() {
    let driver = tcp_client_driver("run1");
    let c = run_config("x/request_response.json");
    let cmd = run_russula_worker(&vec![text("10.0.0.1"), text("fe80::1")], &driver, &c);
    assert!(cmd.commands[1].ends_with("--netbench-servers 10.0.0.1:4433 [fe80::1]:4433"));
}

#[test]
fn state_bytes_with_surrounding_whitespace() {
    assert_eq!(trim_json_ws(b" \t\"Done\"\r\n"), b"\"Done\"".to_vec());
    assert_eq!(WorkerState::from_bytes(b" \"Stopped\"\n").unwrap(), WorkerState::Stopped);
    assert_eq!(ClientCoordState::from_bytes(b"\"Done\" ").unwrap(), ClientCoordState::Done);
    assert!(ClientCoordState::from_bytes(b"\" Done\"").is_err());
}

#[test]
fn malformed_message_details() {
    let r: Result<ClientCoordState, RussulaError> = from_msg(&Msg::new(b"x\"\n\xff".to_vec()));
    assert_eq!(bad_msg_detail(r), "received a malformed msg. len: 4 data: b\"x\\\"\\n\\xff\"");
    assert_eq!(
        bad_msg_detail(read_frame(&[3, b'a', b'\t'])),
        "received a malformed msg. len: 3 data: \"a\\t\""
    );
    assert_eq!(
        bad_msg_detail(read_frame(&[5, b'a', 1])),
        "received a malformed msg. len: 5 data: \"a\\u{1}\""
    );
}

#[test]
fn state_names_in_other_json_forms() {
    assert_eq!(ClientCoordState::from_bytes(b"{\"Done\":null}").unwrap(), ClientCoordState::Done);
    assert_eq!(
        ClientCoordState::from_bytes(b" { \"Ready\" :\tnull } ").unwrap(),
        ClientCoordState::Ready
    );
    assert_eq!(
        WorkerState::from_bytes(b"\"\\u0052unningAwaitKill\"").unwrap(),
        WorkerState::RunningAwaitKill(0)
    );
    assert_eq!(WorkerState::from_bytes(b"\"D\\u006fne\"").unwrap(), WorkerState::Done);
    assert_eq!(WorkerState::from_bytes(b"\"D\\u006Fne\"").unwrap(), WorkerState::Done);
    assert!(ClientCoordState::from_bytes(b"{\"Done\":1}").is_err());
    assert!(ClientCoordState::from_bytes(b"{\"Done\":null}}").is_err());
    assert!(ClientCoordState::from_bytes(b"\"D\\u006ne\"").is_err());
    assert!(ClientCoordState::from_bytes(b"\"done\"").is_err());
}

#[test]
fn batch_counting_matches_single_events() {
    let mut r = EventRecorder::new();
    r.process_all(&vec![EventType::RecvMsg, EventType::SendMsg, EventType::RecvMsg]);
    assert_eq!(r.to_display_string(), "send_cnt: 1, recv_cnt: 2");
}
