use netbench_orchestrator::dashboard::index_html;
use netbench_orchestrator::ec2_utils::networking::PermissionSource;
use netbench_orchestrator::ssm_utils::netbench_driver::tcp_driver_crates;
use netbench_orchestrator::text::replace_all;
use netbench_orchestrator::ssm_utils::{client, server};
use netbench_orchestrator::cli::{
    file_name, file_stem_of_name, scenario_file_name, CdkConfig, InfraScenario, NetbenchScenario,
    OrchestratorConfig, PlacementGroup,
};
use netbench_orchestrator::coordination_utils::{
    client_worker, pair_done, russula_worker_addrs, server_worker, workers_running_reached,
};
use netbench_orchestrator::dashboard::{host_step_key, index_links, instances_up_message};
use netbench_orchestrator::duration::parse_duration;
use netbench_orchestrator::ec2_utils::instance::{instance_user_data, EndpointType, InstanceDetail};
use netbench_orchestrator::ec2_utils::launch_plan::collect_launch_results;
use netbench_orchestrator::ec2_utils::InfraDetail;
use netbench_orchestrator::error::OrchError;
use netbench_orchestrator::report::{
    report_key, report_link_html, report_tree_args, report_url, sync_report_args, sync_results_args,
};
use netbench_orchestrator::russula::protocol::PollStatus;
use netbench_orchestrator::ssm_utils::common::collect_config_cmds;
use netbench_orchestrator::ssm_utils::netbench_driver::native_tls_driver::native_tls_server_driver;
use netbench_orchestrator::ssm_utils::netbench_driver::s2n_quic_dc_driver::dc_quic_client_driver;
use netbench_orchestrator::ssm_utils::netbench_driver::s2n_quic_driver::quic_server_driver;
use netbench_orchestrator::ssm_utils::netbench_driver::s2n_tls_driver::s2n_tls_client_driver;
use netbench_orchestrator::ssm_utils::netbench_driver::tcp_driver::tcp_server_driver;
use netbench_orchestrator::ssm_utils::netbench_driver::tcp_driver_crates::tcp_client_driver;
use netbench_orchestrator::ssm_utils::netbench_driver::{
    local_upload_source_args, NetbenchDriverType,
};
use netbench_orchestrator::ssm_utils::{
    assemble_command, classify_status, completed_tasks, retry_after_failed_send, wait_outcome,
    CommandStatus, Step,
};
use netbench_orchestrator::state::state;
use netbench_orchestrator::text::{
    join_strings, to_decimal, trim_end_matches, trim_start_matches,
};

fn s(v: &str) -> String {
    v.to_string()
}

fn config(path: &str) -> OrchestratorConfig {
    let scenario = NetbenchScenario {
        clients: vec![s("{}"), s("{}")],
        servers: vec![s("{}")],
    };
    let cdk = CdkConfig::new(s("logs"), s("bucket"), s("cf"), s("profile"), s("k"), s("v"));
    OrchestratorConfig::new(path, &scenario, cdk, InfraScenario::default()).unwrap()
}

fn host(kind: EndpointType, id: &str, ip: &str) -> InstanceDetail {
    InstanceDetail::new(kind, s(id), s(ip))
}

#[test]
fn state_paths() {
    let st = state();
    assert_eq!(st.cf_url("run1"), "https://d37mm99fcr6hy4.cloudfront.net/run1");
    assert_eq!(st.s3_path("run1"), "s3://netbenchrunnerlogs-public-prod/run1");
    assert_eq!(st.s3_private_path("run1"), "s3://netbenchrunner-private-source-prod/run1");
    assert_eq!(st.host_bin_path(), "/home/ec2-user/bin");
    assert_eq!(st.cargo_path(), "/home/ec2-user/bin/cargo");
    assert_eq!(st.security_group_name("run1"), "netbench_run1");
    assert_eq!(st.instance_name("run1", EndpointType::Server), "server_run1");
    assert_eq!(st.instance_name("run1", EndpointType::Client), "client_run1");
    assert_eq!(st.russula_port, 9000);
}

#[test]
fn file_names_and_stems() {
    assert_eq!(file_name("dir/request_response.json"), Some("request_response.json"));
    assert_eq!(file_name("a/b/"), Some("b"));
    assert_eq!(file_name("a/b/."), Some("b"));
    assert_eq!(file_name("a/.."), None);
    assert_eq!(file_name("."), None);
    assert_eq!(file_name("/"), None);
    assert_eq!(file_name(""), None);
    assert_eq!(file_name("plain"), Some("plain"));
    assert_eq!(file_stem_of_name("request_response.json"), "request_response");
    assert_eq!(file_stem_of_name("foo.tar.gz"), "foo.tar");
    assert_eq!(file_stem_of_name(".bashrc"), ".bashrc");
    assert_eq!(file_stem_of_name("noext"), "noext");
    assert_eq!(file_stem_of_name("trailing."), "trailing");
}

#[test]
fn orchestrator_config_from_scenario() {
    let c = config("scenarios/incast.json");
    assert_eq!(c.netbench_scenario_filename, "incast.json");
    assert_eq!(c.clients, 2);
    assert_eq!(c.servers, 1);
    assert_eq!(c.netbench_scenario_file_stem(), "incast");
    assert_eq!(c.cdk_config.netbench_runner_s3_bucket(), "bucket");
    match scenario_file_name("scenarios/..") {
        Err(OrchError::Init { dbg }) => assert_eq!(dbg, "Scenario file not specified"),
        other => panic!("{:?}", other),
    }
}

#[test]
fn placement_of_hosts() {
    let infra = InfraScenario {
        placement: PlacementGroup::Partition,
        client_az: Some(s("us-west-2a")),
        server_az: None,
    };
    let server = infra.placement(&EndpointType::Server);
    assert_eq!(server.group_name, "NetbenchInfraPrimaryProd-Partition9E68ED67-LC9VKTZBNJJ8");
    assert_eq!(server.availability_zone, None);
    let client = infra.placement(&EndpointType::Client);
    assert_eq!(client.availability_zone, Some(s("us-west-2a")));
    let default = InfraScenario::default().placement(&EndpointType::Client);
    assert_eq!(default.group_name, "NetbenchInfraPrimaryProd-ClusterEB0386A7-R5EWN2RCJC5L");
}

#[test]
fn github_driver_build_commands() {
    let d = quic_server_driver("run1", &config("x/req.json"));
    assert_eq!(d.driver_name(), "s2n-netbench-driver-server-s2n-quic");
    assert_eq!(d.proj_name(), "s2n-netbench");
    assert_eq!(d.unique_id(), "run1");
    assert_eq!(d.netbench_scenario_filename(), "req.json");
    assert_eq!(
        d.ssm_build_cmd(),
        vec![
            s("git clone --branch main https://github.com/aws/s2n-netbench.git"),
            s("cd s2n-netbench"),
            s("/home/ec2-user/bin/cargo build --release"),
            s("find target/release -maxdepth 1 -type f -perm /a+x -exec cp {} /home/ec2-user/bin \\;"),
            s("aws s3 cp s3://netbenchrunnerlogs-public-prod/run1/req.json /home/ec2-user/bin/req.json"),
        ]
    );
}

#[test]
fn crates_io_drivers() {
    let c = config("x/req.json");
    let d = native_tls_server_driver("run1", &c);
    assert_eq!(d.driver_name(), "s2n-netbench-driver-server-native-tls");
    assert_eq!(d.proj_name(), "s2n-netbench-driver-native-tls");
    assert!(d.ssm_build_cmd().is_empty());
    match s2n_tls_client_driver("run1", &c) {
        NetbenchDriverType::CratesIo(src) => {
            assert_eq!(src.driver_name, "s2n-netbench-driver-client-s2n-tls");
            assert_eq!(src.version, "*");
        }
        _ => panic!("expected a crates.io driver"),
    }
    assert_eq!(tcp_client_driver("run1", &c).driver_name(), "s2n-netbench-driver-client-tcp");
}

#[test]
fn tcp_and_dc_drivers() {
    let t = tcp_server_driver("run1");
    assert_eq!(t.driver_name, "s2n-netbench-driver-server-tcp");
    assert_eq!(t.local_path_to_proj, None);
    assert_eq!(
        t.ssm_build_cmd[4],
        "aws s3 cp s3://netbenchrunnerlogs-public-prod/TS/request_response.json /home/ec2-user/bin/request_response.json"
    );
    let d = dc_quic_client_driver("run1", &config("x/req.json"));
    assert_eq!(d.driver_name, "s2n-netbench-driver-client-s2n-quic-dc");
    assert_eq!(
        d.ssm_build_cmd[0],
        "aws s3 sync s3://netbenchrunner-private-source-prod/run1/SaltyLib-Rust/ /home/ec2-user/SaltyLib-Rust"
    );
    assert_eq!(
        d.ssm_build_cmd[2],
        "env RUSTFLAGS='--cfg s2n_quic_unstable' /home/ec2-user/bin/cargo build"
    );
    assert_eq!(d.local_path_to_proj, Some(s("/Users/apoorvko/projects/ws_SaltyLib/src")));
    assert_eq!(
        local_upload_source_args("/src", "SaltyLib-Rust", "run1"),
        vec![
            s("s3"),
            s("sync"),
            s("/src/SaltyLib-Rust"),
            s("s3://netbenchrunner-private-source-prod/run1/SaltyLib-Rust/"),
            s("--exclude"),
            s("target/*"),
            s("--exclude"),
            s(".git/*"),
        ]
    );
}

#[test]
fn assembled_step_commands() {
    let cmds = assemble_command(
        &vec![Step::Configure, Step::BuildRussula],
        Step::RunRussula,
        vec![s("echo hi")],
    );
    assert_eq!(
        cmds,
        vec![
            s("cd /home/ec2-user; until [ -f configure_fin___ ]; do sleep 5; done"),
            s("cd /home/ec2-user; until [ -f build_russula_fin___ ]; do sleep 5; done"),
            s("cd /home/ec2-user; touch run_russula_start___"),
            s("echo hi"),
            s("cd /home/ec2-user"),
            s("touch run_russula_fin___"),
        ]
    );
    assert_eq!(Step::BuildNetbench.as_str(), "build_netbench");
    assert_eq!(Step::RunNetbench.as_str(), "run_netbench");
}

#[test]
fn command_status_classification() {
    assert_eq!(classify_status(None).unwrap(), PollStatus::Ready);
    assert_eq!(classify_status(Some(CommandStatus::Success)).unwrap(), PollStatus::Ready);
    assert_eq!(classify_status(Some(CommandStatus::InProgress)).unwrap(), PollStatus::Pending);
    assert_eq!(classify_status(Some(CommandStatus::Delayed)).unwrap(), PollStatus::Pending);
    match classify_status(Some(CommandStatus::TimedOut)) {
        Err(OrchError::Ssm { dbg }) => assert_eq!(dbg, "timeout"),
        other => panic!("{:?}", other),
    }
    match classify_status(Some(CommandStatus::Unknown)) {
        Err(OrchError::Ssm { dbg }) => assert_eq!(dbg, "unhandled status"),
        other => panic!("{:?}", other),
    }
    assert_eq!(wait_outcome(&Ok(PollStatus::Ready)), Some(true));
    assert_eq!(wait_outcome(&Ok(PollStatus::Pending)), None);
    assert_eq!(wait_outcome(&Err(OrchError::Ssm { dbg: s("x") })), Some(false));
    assert_eq!(
        completed_tasks(&vec![PollStatus::Ready, PollStatus::Pending, PollStatus::Ready]),
        (2, false)
    );
    assert_eq!(completed_tasks(&vec![PollStatus::Ready]), (1, true));
    assert_eq!(retry_after_failed_send(30), Some(29));
    assert_eq!(retry_after_failed_send(0), None);
}

#[test]
fn host_setup_commands() {
    let driver = tcp_server_driver("run1");
    let cmds = collect_config_cmds("server", &driver, "run1");
    assert_eq!(cmds.len(), 4);
    assert_eq!(cmds[0].commands[0], "shutdown -P +120");
    assert_eq!(
        cmds[0].commands[2],
        "echo ec2 up > /home/ec2-user/index.html && aws s3 cp /home/ec2-user/index.html s3://netbenchrunnerlogs-public-prod/run1/server-step-1"
    );
    assert_eq!(cmds[0].comment, "configure_host_server");
    assert_eq!(cmds[1].step, Step::BuildDriver);
    assert_eq!(
        cmds[1].commands[0],
        "aws s3 sync s3://netbenchrunnerlogs-public-prod/run1/s2n-netbench/ /home/ec2-user/s2n-netbench"
    );
    assert_eq!(cmds[1].commands.len(), 6);
    assert_eq!(
        cmds[2].commands,
        vec![
            s("git clone --branch ak-main https://github.com/toidiu/netbench_orchestrator.git"),
            s("cd netbench_orchestrator"),
            s("/home/ec2-user/bin/cargo build"),
        ]
    );
    assert_eq!(cmds[3].wait_steps, vec![Step::Configure]);
    assert_eq!(cmds[3].commands.len(), 8);
}

#[test]
fn russula_worker_commands() {
    let driver = tcp_server_driver("run1");
    let c = config("x/request_response.json");
    let cmd = client::run_russula_worker(&vec![s("10.0.0.1"), s("10.0.0.2")], &driver, &c);
    assert_eq!(
        cmd.commands[1],
        "env RUST_LOG=debug ./target/debug/russula_cli netbench-client-worker --russula-port 9000 --driver s2n-netbench-driver-server-tcp --scenario request_response.json --netbench-servers 10.0.0.1:4433 10.0.0.2:4433"
    );
    assert_eq!(cmd.wait_steps, vec![Step::BuildDriver, Step::BuildRussula]);
    let up = client::upload_netbench_data("run1", &c, &driver);
    assert_eq!(
        up.commands[1],
        "aws s3 cp client* s3://netbenchrunnerlogs-public-prod/run1/results/request_response/server-tcp/"
    );
    assert_eq!(client::trim_driver_name("netbench-driver-x.json"), "x");
    assert_eq!(client::trim_driver_name("s2n-netbench-driver-s2n-netbench-driver-y"), "y");
    let srv = server::run_russula_worker("1.1.1.1:4433", "drv");
    assert_eq!(
        srv.commands[1],
        "env RUST_LOG=debug ./target/debug/russula_cli --russula-port 9000 netbench-server-worker --peer-list 1.1.1.1:4433 --driver drv"
    );
    assert_eq!(
        server::copy_netbench_data("run1").commands[1],
        "aws s3 cp server.json s3://netbenchrunnerlogs-public-prod/run1/results/request_response/s2n-quic/"
    );
    assert_eq!(
        server_worker().commands[1],
        "env RUST_LOG=debug ./target/debug/russula_cli --protocol NetbenchServerWorker --port 9000"
    );
    assert_eq!(client_worker().endpoint, "client");
}

#[test]
fn hosts_and_addresses() {
    let infra = InfraDetail {
        security_group_id: s("sg-1"),
        clients: vec![host(EndpointType::Client, "i-c1", "1.1.1.1")],
        servers: vec![
            host(EndpointType::Server, "i-s1", "2.2.2.2"),
            host(EndpointType::Server, "i-s2", "3.3.3.3"),
        ],
    };
    assert_eq!(infra.all_instance_ids(), vec![s("i-s1"), s("i-s2"), s("i-c1")]);
    assert_eq!(infra.client_ids(), vec![s("i-c1")]);
    assert_eq!(
        infra.public_host_ip_ranges(),
        vec![s("1.1.1.1/32"), s("2.2.2.2/32"), s("3.3.3.3/32")]
    );
    assert_eq!(
        russula_worker_addrs(&infra.servers),
        vec![s("2.2.2.2:9000"), s("3.3.3.3:9000")]
    );
    assert_eq!(infra.servers[0].instance_id().unwrap(), "i-s1");
    assert_eq!(
        instances_up_message(&infra.servers),
        "EC2 \"Server\" instances up: 2.2.2.2 i-s13.3.3.3 i-s2"
    );
    assert_eq!(host_step_key("run1", &EndpointType::Client), "run1/client-step-0");
    assert!(workers_running_reached(PollStatus::Ready));
    assert!(!pair_done(PollStatus::Ready, PollStatus::Pending));
    assert!(pair_done(PollStatus::Ready, PollStatus::Ready));
}

#[test]
fn dashboard_and_report_links() {
    let l = index_links("run1");
    assert_eq!(l.status_url, "https://d37mm99fcr6hy4.cloudfront.net/run1/index.html");
    assert_eq!(l.client_prefix, "https://d37mm99fcr6hy4.cloudfront.net/run1/client-step-");
    assert_eq!(l.index_key, "run1/index.html");
    assert_eq!(
        sync_results_args("run1"),
        vec![s("s3"), s("sync"), s("s3://netbenchrunnerlogs-public-prod/run1"), s("./target/netbench")]
    );
    assert_eq!(
        report_tree_args(),
        vec![s("report-tree"), s("./target/netbench/results"), s("./target/netbench/report")]
    );
    assert_eq!(sync_report_args("run1")[2], "./target/netbench");
    assert_eq!(report_url("run1"), "https://d37mm99fcr6hy4.cloudfront.net/run1/report/index.html");
    assert_eq!(
        report_link_html("run1"),
        "<a href=\"https://d37mm99fcr6hy4.cloudfront.net/run1/report/index.html\">Final Report</a>"
    );
    assert_eq!(report_key("run1"), "run1/finished-step-0");
}

#[test]
fn user_data_is_base64_shutdown_script() {
    assert_eq!(instance_user_data(), "c3VkbyBzaHV0ZG93biAtUCArMTIw");
}

#[test]
fn durations() {
    assert_eq!(parse_duration("5s").unwrap(), (5, 0));
    assert_eq!(parse_duration("0").unwrap(), (0, 0));
    assert_eq!(parse_duration("2h 37min").unwrap(), (9420, 0));
    assert_eq!(parse_duration("32ms").unwrap(), (0, 32_000_000));
    assert!(parse_duration("five").is_err());
}

#[test]
fn launch_results_combine() {
    let ok: Vec<Result<u32, OrchError>> = vec![Ok(1), Ok(2)];
    assert_eq!(collect_launch_results(ok).unwrap(), vec![1, 2]);
    let bad: Vec<Result<u32, OrchError>> = vec![
        Ok(1),
        Err(OrchError::Ec2 { dbg: s("first") }),
        Err(OrchError::Ec2 { dbg: s("second") }),
    ];
    match collect_launch_results(bad) {
        Err(OrchError::Ec2 { dbg }) => assert_eq!(dbg, "first"),
        other => panic!("{:?}", other),
    }
}

#[test]
fn text_helpers() {
    assert_eq!(to_decimal(0), "0");
    assert_eq!(to_decimal(120), "120");
    assert_eq!(to_decimal(u64::MAX), "18446744073709551615");
    assert_eq!(join_strings(&vec![s("a"), s("b"), s("c")], ", "), "a, b, c");
    assert_eq!(join_strings(&vec![], ", "), "");
    assert_eq!(trim_start_matches("aaab", "a"), "b");
    assert_eq!(trim_end_matches("x.json.json", ".json"), "x");
    assert_eq!(trim_start_matches("abc", ""), "abc");
    assert_eq!(OrchError::Iam { dbg: s("no creds") }.to_display_string(), "no creds");
}

#[test]
fn index_page_from_template() {
    let page = index_html(
        "id=template_unique_id s=template_server_prefix c=template_client_prefix f=template_finished_prefix",
        "run1",
    );
    assert_eq!(
        page,
        "id=run1 s=https://d37mm99fcr6hy4.cloudfront.net/run1/server-step- c=https://d37mm99fcr6hy4.cloudfront.net/run1/client-step- f=https://d37mm99fcr6hy4.cloudfront.net/run1/finished-step-"
    );
}

#[test]
fn replace_all_like_str_replace() {
    assert_eq!(replace_all("aaaa", "aa", "b"), "aaaa".replace("aa", "b"));
    assert_eq!(replace_all("xaybxa", "xa", "Q"), "QybQ");
    assert_eq!(replace_all("none", "zz", "Q"), "none");
}

#[test]
fn security_group_permissions() {
    let infra = InfraDetail {
        security_group_id: s("sg-1"),
        clients: vec![host(EndpointType::Client, "i-c", "1.1.1.1")],
        servers: vec![host(EndpointType::Server, "i-s", "2.2.2.2")],
    };
    let egress = infra.egress_permissions();
    assert_eq!(egress.len(), 1);
    assert!(matches!(&egress[0].source, PermissionSource::SecurityGroup(g) if g == "sg-1"));
    let ingress = infra.ingress_permissions();
    assert_eq!(ingress.len(), 4);
    match &ingress[1].source {
        PermissionSource::IpRanges(r) => assert_eq!(r, &vec![s("1.1.1.1/32"), s("2.2.2.2/32")]),
        _ => panic!("expected ranges"),
    }
    assert_eq!((ingress[2].from_port, ingress[2].to_port), (22, 22));
    assert_eq!(ingress[3].ip_protocol, "tcp");
    assert_eq!((ingress[3].from_port, ingress[3].to_port), (9000, 9000));
}

#[test]
fn crates_io_driver_as_built() {
    let d = tcp_driver_crates::tcp_server_driver("run1", &config("x/request_response.json")).netbench_driver();
    assert_eq!(d.driver_name, "s2n-netbench-driver-server-tcp");
    assert_eq!(d.proj_name, "s2n-netbench-driver-tcp");
    assert!(d.local_path_to_proj.is_none());
}
