//! Running the Russula server and client pairs on the hosts: the commands
//! that start the workers, the addresses the coordinators connect to, and
//! when waiting for a pair is over.

use crate::ec2_utils::instance::InstanceDetail;
use crate::russula::protocol::PollStatus;
use crate::ssm_utils::{is_ssm_command, SsmCommand, Step};
use crate::state::state;
use crate::text::{decimal, owned, push_decimal, strings_view};
use vstd::prelude::*;
use vstd::string::*;

verus! {

/// The command line that starts a Russula worker of the given protocol on
/// the deployment's Russula port.
pub open spec fn russula_worker_cmd(protocol: Seq<char>) -> Seq<char> {
    "env RUST_LOG=debug ./target/debug/russula_cli --protocol "@ + protocol + " --port "@ + decimal(
        state().russula_port as nat,
    )
}

fn russula_worker(protocol: &str, endpoint: &str, comment: &str) -> (r: SsmCommand)
    ensures
        is_ssm_command(
            r,
            seq![Step::BuildRussula],
            Step::RunRussula,
            endpoint@,
            comment@,
            seq!["cd netbench_orchestrator"@, russula_worker_cmd(protocol@)],
        ),
{
    let mut cmd = String::from_str("env RUST_LOG=debug ./target/debug/russula_cli --protocol ");
    cmd.append(protocol);
    cmd.append(" --port ");
    push_decimal(&mut cmd, state().russula_port as u64);
    let mut cmds: Vec<String> = Vec::new();
    cmds.push(owned("cd netbench_orchestrator"));
    cmds.push(cmd);
    let mut waits: Vec<Step> = Vec::new();
    waits.push(Step::BuildRussula);
    let r = SsmCommand {
        wait_steps: waits,
        step: Step::RunRussula,
        endpoint: owned(endpoint),
        comment: owned(comment),
        commands: cmds,
    };
    assert(r.wait_steps@ =~= seq![Step::BuildRussula]);
    assert(strings_view(r.commands@) =~= seq!["cd netbench_orchestrator"@, russula_worker_cmd(protocol@)]);
    r
}

/// The command that starts the Russula server workers: the `RunRussula`
/// step of the server hosts, after `BuildRussula`.
pub fn server_worker() -> (r: SsmCommand)
    ensures
        is_ssm_command(
            r,
            seq![Step::BuildRussula],
            Step::RunRussula,
            "server"@,
            "run_server_russula"@,
            seq!["cd netbench_orchestrator"@, russula_worker_cmd("NetbenchServerWorker"@)],
        ),
{
    russula_worker("NetbenchServerWorker", "server", "run_server_russula")
}

/// The command that starts the Russula client workers: the `RunRussula`
/// step of the client hosts, after `BuildRussula`.
pub fn client_worker() -> (r: SsmCommand)
    ensures
        is_ssm_command(
            r,
            seq![Step::BuildRussula],
            Step::RunRussula,
            "client"@,
            "run_client_russula"@,
            seq!["cd netbench_orchestrator"@, russula_worker_cmd("NetbenchClientWorker"@)],
        ),
{
    russula_worker("NetbenchClientWorker", "client", "run_client_russula")
}

/// The Russula addresses of a list of hosts: each host's address with the
/// Russula port, `IP:PORT`.
pub open spec fn russula_addrs(hosts: Seq<InstanceDetail>) -> Seq<Seq<char>> {
    hosts.map_values(|h: InstanceDetail| h.ip@ + ":"@ + decimal(state().russula_port as nat))
}

/// The addresses a coordinator connects to, one per worker host; see
/// `russula_addrs`.
pub fn russula_worker_addrs(hosts: &Vec<InstanceDetail>) -> (r: Vec<String>)
    ensures
        strings_view(r@) == russula_addrs(hosts@),
{
    let port = state().russula_port;
    let mut r: Vec<String> = Vec::new();
    let mut i: usize = 0;
    while i < hosts.len()
        invariant
            i <= hosts@.len(),
            port == state().russula_port,
            strings_view(r@) == russula_addrs(hosts@.subrange(0, i as int)),
        decreases hosts@.len() - i,
    {
        let ghost prev = r@;
        let mut a = hosts[i].ip.clone();
        a.append(":");
        push_decimal(&mut a, port as u64);
        r.push(a);
        assert(hosts@.subrange(0, i + 1) =~= hosts@.subrange(0, i as int).push(hosts@[i as int]));
        assert(strings_view(r@) =~= strings_view(prev).push(hosts@[i as int].ip@ + ":"@ + decimal(port as nat)));
        i = i + 1;
    }
    assert(hosts@.subrange(0, hosts@.len() as int) =~= hosts@);
    r
}

/// Whether waiting for the server workers to run is over: when the
/// coordinator has reached its workers-running state.
pub fn workers_running_reached(coord: PollStatus) -> (r: bool)
    ensures
        r == (coord == PollStatus::Ready),
{
    coord == PollStatus::Ready
}

/// Whether waiting for a Russula pair to finish is over: when both the
/// coordinator is done and the workers' command has finished.
pub fn pair_done(coord: PollStatus, worker: PollStatus) -> (r: bool)
    ensures
        r == (coord == PollStatus::Ready && worker == PollStatus::Ready),
{
    coord == PollStatus::Ready && worker == PollStatus::Ready
}

} // verus!
