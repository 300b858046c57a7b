//! The commands for the server hosts: run the Russula server worker and
//! upload its netbench results.

use crate::ssm_utils::common::s3_run_path;
use crate::ssm_utils::{is_ssm_command, SsmCommand, Step};
use crate::state::state;
use crate::text::{decimal, owned, push_decimal, strings_view};
use vstd::prelude::*;
use vstd::string::*;

verus! {

/// The command that copies the server results to the run's results: the
/// `RunNetbench` step, after `BuildDriver` and `RunRussula`.
pub fn copy_netbench_data(unique_id: &str) -> (r: SsmCommand)
    ensures
        is_ssm_command(
            r,
            seq![Step::BuildDriver, Step::RunRussula],
            Step::RunNetbench,
            "client"@,
            "run_client_netbench"@,
            seq![
                "cd netbench_orchestrator"@,
                "aws s3 cp server.json "@ + s3_run_path(unique_id@) + "/results/request_response/s2n-quic/"@,
            ],
        ),
{
    let mut cp = String::from_str("aws s3 cp server.json ");
    cp.append(state().s3_path(unique_id).as_str());
    cp.append("/results/request_response/s2n-quic/");
    let mut cmds: Vec<String> = Vec::new();
    cmds.push(owned("cd netbench_orchestrator"));
    cmds.push(cp);
    let mut waits: Vec<Step> = Vec::new();
    waits.push(Step::BuildDriver);
    waits.push(Step::RunRussula);
    let r = SsmCommand {
        wait_steps: waits,
        step: Step::RunNetbench,
        endpoint: owned("client"),
        comment: owned("run_client_netbench"),
        commands: cmds,
    };
    assert(r.wait_steps@ =~= seq![Step::BuildDriver, Step::RunRussula]);
    assert(strings_view(r.commands@) =~= seq![
        "cd netbench_orchestrator"@,
        "aws s3 cp server.json "@ + s3_run_path(unique_id@) + "/results/request_response/s2n-quic/"@,
    ]);
    r
}

/// The command line that starts the Russula server worker with the given
/// peer address and driver.
pub open spec fn server_worker_cmd(peer: Seq<char>, driver: Seq<char>) -> Seq<char> {
    "env RUST_LOG=debug ./target/debug/russula_cli --russula-port "@ + decimal(
        state().russula_port as nat,
    ) + " netbench-server-worker --peer-list "@ + peer + " --driver "@ + driver
}

/// The command that runs the Russula server worker on the server hosts:
/// the `RunRussula` step, after `BuildRussula`.
pub fn run_russula_worker(peer_sock_addr: &str, netbench_driver: &str) -> (r: SsmCommand)
    ensures
        is_ssm_command(
            r,
            seq![Step::BuildRussula],
            Step::RunRussula,
            "server"@,
            "run_server_russula"@,
            seq![
                "cd netbench_orchestrator"@,
                server_worker_cmd(peer_sock_addr@, netbench_driver@),
            ],
        ),
{
    let mut cmd = String::from_str("env RUST_LOG=debug ./target/debug/russula_cli --russula-port ");
    push_decimal(&mut cmd, state().russula_port as u64);
    cmd.append(" netbench-server-worker --peer-list ");
    cmd.append(peer_sock_addr);
    cmd.append(" --driver ");
    cmd.append(netbench_driver);
    let mut cmds: Vec<String> = Vec::new();
    cmds.push(owned("cd netbench_orchestrator"));
    cmds.push(cmd);
    let mut waits: Vec<Step> = Vec::new();
    waits.push(Step::BuildRussula);
    let r = SsmCommand {
        wait_steps: waits,
        step: Step::RunRussula,
        endpoint: owned("server"),
        comment: owned("run_server_russula"),
        commands: cmds,
    };
    assert(r.wait_steps@ =~= seq![Step::BuildRussula]);
    assert(strings_view(r.commands@) =~= seq![
        "cd netbench_orchestrator"@,
        server_worker_cmd(peer_sock_addr@, netbench_driver@),
    ]);
    r
}

} // verus!
