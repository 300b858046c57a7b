//! The TCP drivers, built from the netbench repository with a shared
//! scenario file.

use crate::ssm_utils::netbench_driver::{
    cargo_build_release_cmd, cargo_build_release_command, cd_cmd, cd_command, clone_netbench_cmd,
    clone_netbench_command, copy_executables_cmd, copy_executables_command, host_bin,
    host_bin_path, NetbenchDriver,
};
use crate::state::state;
use crate::text::{owned, strings_view};
use vstd::prelude::*;
use vstd::string::*;

verus! {

/// Copies the deployment's shared request-response scenario to the hosts'
/// directory of executables.
pub open spec fn copy_shared_scenario_cmd() -> Seq<char> {
    "aws s3 cp s3://"@ + state().s3_log_bucket@ + "/"@ + state().s3_resource_folder@
        + "/request_response.json "@ + host_bin() + "/request_response.json"@
}

/// The commands that build the TCP drivers: clone netbench, enter it,
/// build it in release mode, copy the executables, and fetch the shared
/// scenario.
pub open spec fn tcp_build_cmds() -> Seq<Seq<char>> {
    seq![
        clone_netbench_cmd(),
        cd_cmd("s2n-netbench"@),
        cargo_build_release_cmd(),
        copy_executables_cmd("release"@),
        copy_shared_scenario_cmd(),
    ]
}

/// Whether `d` is a TCP driver of the given name.
pub open spec fn is_tcp_driver(d: NetbenchDriver, driver_name: Seq<char>) -> bool {
    &&& d.driver_name@ == driver_name
    &&& strings_view(d.ssm_build_cmd@) == tcp_build_cmds()
    &&& d.proj_name@ == "s2n-netbench"@
    &&& d.local_path_to_proj is None
}

fn tcp_driver(driver_name: &str) -> (r: NetbenchDriver)
    ensures
        is_tcp_driver(r, driver_name@),
{
    let mut cmds: Vec<String> = Vec::new();
    cmds.push(clone_netbench_command());
    cmds.push(cd_command("s2n-netbench"));
    cmds.push(cargo_build_release_command());
    cmds.push(copy_executables_command("release"));
    let st = state();
    let mut copy = String::from_str("aws s3 cp s3://");
    copy.append(st.s3_log_bucket);
    copy.append("/");
    copy.append(st.s3_resource_folder);
    copy.append("/request_response.json ");
    copy.append(host_bin_path().as_str());
    copy.append("/request_response.json");
    cmds.push(copy);
    assert(strings_view(cmds@) =~= tcp_build_cmds());
    NetbenchDriver {
        driver_name: owned(driver_name),
        ssm_build_cmd: cmds,
        proj_name: owned("s2n-netbench"),
        local_path_to_proj: None,
    }
}

/// The TCP server driver; its sources need no upload, so the run's id is
/// not used.
pub fn tcp_server_driver(unique_id: &str) -> (r: NetbenchDriver)
    ensures
        is_tcp_driver(r, "s2n-netbench-driver-server-tcp"@),
{
    tcp_driver("s2n-netbench-driver-server-tcp")
}

/// The TCP client driver; its sources need no upload, so the run's id is
/// not used.
pub fn tcp_client_driver(unique_id: &str) -> (r: NetbenchDriver)
    ensures
        is_tcp_driver(r, "s2n-netbench-driver-client-tcp"@),
{
    tcp_driver("s2n-netbench-driver-client-tcp")
}

} // verus!
