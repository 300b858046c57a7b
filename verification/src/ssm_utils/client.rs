//! The commands for the client hosts: run the Russula client worker and
//! upload its netbench results.

use crate::cli::{file_stem_spec, file_name_spec, OrchestratorConfig};
use crate::ssm_utils::netbench_driver::NetbenchDriver;
use crate::ssm_utils::common::s3_run_path;
use crate::ssm_utils::{is_ssm_command, SsmCommand, Step};
use crate::state::state;
use crate::text::{
    concat3, contains_char, decimal, join_with, owned, push_decimal, strings_view, trim_end_matches,
    trim_end_spec, trim_start_matches, trim_start_spec,
};
use vstd::prelude::*;
use vstd::string::*;

verus! {

/// A driver's short name: its name without the `s2n-netbench-driver-` or
/// `netbench-driver-` prefixes and without a `.json` suffix.
pub open spec fn short_driver_name(name: Seq<char>) -> Seq<char> {
    trim_end_spec(
        trim_start_spec(trim_start_spec(name, "s2n-netbench-driver-"@), "netbench-driver-"@),
        ".json"@,
    )
}

/// A driver's short name; see `short_driver_name`.
pub fn trim_driver_name(name: &str) -> (r: &str)
    ensures
        r@ == short_driver_name(name@),
{
    let a = trim_start_matches(name, "s2n-netbench-driver-");
    let b = trim_start_matches(a, "netbench-driver-");
    trim_end_matches(b, ".json")
}

/// The commands that upload the client results: enter the orchestrator
/// and copy the client files under the run's results, by scenario and
/// driver.
pub open spec fn upload_client_data_cmds(unique_id: Seq<char>, stem: Seq<char>, driver: Seq<char>) -> Seq<Seq<char>> {
    seq![
        "cd netbench_orchestrator"@,
        "aws s3 cp client* "@ + s3_run_path(unique_id) + "/results/"@ + stem + "/"@ + driver + "/"@,
    ]
}

/// The command that uploads the client hosts' netbench results: the
/// `UploadNetbenchRawData` step, after `RunRussula`; see
/// `upload_client_data_cmds`. The scenario path must have a file name.
pub fn upload_netbench_data(unique_id: &str, scenario: &OrchestratorConfig, driver: &NetbenchDriver) -> (r:
    SsmCommand)
    requires
        file_name_spec(scenario.netbench_scenario_filepath@) is Some,
    ensures
        is_ssm_command(
            r,
            seq![Step::RunRussula],
            Step::UploadNetbenchRawData,
            "client"@,
            "upload_netbench_raw_data"@,
            upload_client_data_cmds(
                unique_id@,
                file_stem_spec(scenario.netbench_scenario_filepath@)->0,
                short_driver_name(driver.driver_name@),
            ),
        ),
{
    let driver_name = trim_driver_name(driver.driver_name.as_str());
    let mut cp = String::from_str("aws s3 cp client* ");
    cp.append(state().s3_path(unique_id).as_str());
    cp.append("/results/");
    cp.append(scenario.netbench_scenario_file_stem());
    cp.append("/");
    cp.append(driver_name);
    cp.append("/");
    let mut cmds: Vec<String> = Vec::new();
    cmds.push(owned("cd netbench_orchestrator"));
    cmds.push(cp);
    assert(strings_view(cmds@) =~= upload_client_data_cmds(
        unique_id@,
        file_stem_spec(scenario.netbench_scenario_filepath@)->0,
        short_driver_name(driver.driver_name@),
    ));
    let mut waits: Vec<Step> = Vec::new();
    waits.push(Step::RunRussula);
    let r = SsmCommand {
        wait_steps: waits,
        step: Step::UploadNetbenchRawData,
        endpoint: owned("client"),
        comment: owned("upload_netbench_raw_data"),
        commands: cmds,
    };
    assert(r.wait_steps@ =~= seq![Step::RunRussula]);
    r
}

/// An address and port as a socket address is written: `IP:PORT` for an
/// IPv4 address, `[IP]:PORT` for an IPv6 address (one with a `:`).
pub open spec fn socket_addr_text(ip: Seq<char>, port: nat) -> Seq<char> {
    (if ip.contains(':') {
        "["@ + ip + "]"@
    } else {
        ip
    }) + ":"@ + decimal(port)
}

/// The netbench addresses of the servers: each address with the netbench
/// port; see `socket_addr_text`.
pub open spec fn netbench_server_addrs(ips: Seq<Seq<char>>) -> Seq<Seq<char>> {
    ips.map_values(|ip: Seq<char>| socket_addr_text(ip, state().netbench_port as nat))
}

/// The command line that starts the Russula client worker against the
/// given servers.
pub open spec fn client_worker_cmd(
    driver: Seq<char>,
    scenario: Seq<char>,
    server_ips: Seq<Seq<char>>,
) -> Seq<char> {
    "env RUST_LOG=debug ./target/debug/russula_cli netbench-client-worker --russula-port "@
        + decimal(state().russula_port as nat) + " --driver "@ + driver + " --scenario "@ + scenario
        + " --netbench-servers "@ + join_with(netbench_server_addrs(server_ips), " "@)
}

/// The command that runs the Russula client worker on the client hosts:
/// the `RunRussula` step, after `BuildDriver` and `BuildRussula`. There
/// must be at least one server address (an IP address in text form).
pub fn run_russula_worker(server_ips: &Vec<String>, driver: &NetbenchDriver, scenario: &OrchestratorConfig) -> (r:
    SsmCommand)
    requires
        server_ips@.len() > 0,
    ensures
        is_ssm_command(
            r,
            seq![Step::BuildDriver, Step::BuildRussula],
            Step::RunRussula,
            "client"@,
            "run_client_russula"@,
            seq![
                "cd netbench_orchestrator"@,
                client_worker_cmd(
                    driver.driver_name@,
                    scenario.netbench_scenario_filename@,
                    strings_view(server_ips@),
                ),
            ],
        ),
{
    let port = state().netbench_port;
    let mut addrs: Vec<String> = Vec::new();
    let mut i: usize = 0;
    while i < server_ips.len()
        invariant
            i <= server_ips@.len(),
            port == state().netbench_port,
            strings_view(addrs@) == netbench_server_addrs(strings_view(server_ips@.subrange(0, i as int))),
        decreases server_ips@.len() - i,
    {
        let ghost prev = addrs@;
        let ip = server_ips[i].as_str();
        let mut a = if contains_char(ip, ':') {
            concat3("[", ip, "]")
        } else {
            owned(ip)
        };
        a.append(":");
        push_decimal(&mut a, port as u64);
        addrs.push(a);
        assert(server_ips@.subrange(0, i + 1) =~= server_ips@.subrange(0, i as int).push(server_ips@[i as int]));
        assert(strings_view(addrs@) =~= strings_view(prev).push(socket_addr_text(server_ips@[i as int]@, port as nat)));
        i = i + 1;
        assert(strings_view(addrs@) =~= netbench_server_addrs(strings_view(server_ips@.subrange(0, i as int))));
    }
    assert(server_ips@.subrange(0, server_ips@.len() as int) =~= server_ips@);
    let joined = crate::text::join_strings(&addrs, " ");
    let mut cmd = String::from_str(
        "env RUST_LOG=debug ./target/debug/russula_cli netbench-client-worker --russula-port ",
    );
    push_decimal(&mut cmd, state().russula_port as u64);
    cmd.append(" --driver ");
    cmd.append(driver.driver_name.as_str());
    cmd.append(" --scenario ");
    cmd.append(scenario.netbench_scenario_filename.as_str());
    cmd.append(" --netbench-servers ");
    cmd.append(joined.as_str());
    let mut cmds: Vec<String> = Vec::new();
    cmds.push(owned("cd netbench_orchestrator"));
    cmds.push(cmd);
    let mut waits: Vec<Step> = Vec::new();
    waits.push(Step::BuildDriver);
    waits.push(Step::BuildRussula);
    let r = SsmCommand {
        wait_steps: waits,
        step: Step::RunRussula,
        endpoint: owned("client"),
        comment: owned("run_client_russula"),
        commands: cmds,
    };
    assert(r.wait_steps@ =~= seq![Step::BuildDriver, Step::BuildRussula]);
    assert(strings_view(r.commands@) =~= seq![
        "cd netbench_orchestrator"@,
        client_worker_cmd(
            driver.driver_name@,
            scenario.netbench_scenario_filename@,
            strings_view(server_ips@),
        ),
    ]);
    r
}

} // verus!
