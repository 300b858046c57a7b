//! The s2n-quic-dc drivers, built from private sources that are first
//! uploaded from the orchestrator's machine.

use crate::cli::OrchestratorConfig;
use crate::ssm_utils::netbench_driver::{
    cd_cmd, cd_command, copy_executables_cmd, copy_executables_command, copy_scenario_cmd,
    copy_scenario_command, host_bin, host_bin_path, NetbenchDriver,
};
use crate::state::state;
use crate::text::{owned, strings_view};
use vstd::prelude::*;
use vstd::string::*;

verus! {

/// The private project the s2n-quic-dc drivers are built from.
pub open spec fn dc_proj_name() -> Seq<char> {
    "SaltyLib-Rust"@
}

/// Where the private project lies on the orchestrator's machine.
pub open spec fn dc_local_path() -> Seq<char> {
    "/Users/apoorvko/projects/ws_SaltyLib/src"@
}

/// Copies the uploaded private sources from the run's private bucket to
/// the host's home directory.
pub open spec fn sync_private_source_cmd(unique_id: Seq<char>) -> Seq<char> {
    "aws s3 sync "@ + "s3://"@ + state().s3_private_log_bucket@ + "/"@ + unique_id + "/"@
        + dc_proj_name() + "/ "@ + state().host_home_path@ + "/"@ + dc_proj_name()
}

/// Builds the project in debug mode with the unstable s2n-quic features.
pub open spec fn cargo_build_unstable_cmd() -> Seq<char> {
    "env RUSTFLAGS='--cfg s2n_quic_unstable' "@ + host_bin() + "/cargo build"@
}

/// The commands that build an s2n-quic-dc driver: fetch the private
/// sources, enter them, build them, copy the executables, and fetch the
/// run's scenario file.
pub open spec fn dc_build_cmds(unique_id: Seq<char>, scenario: Seq<char>) -> Seq<Seq<char>> {
    seq![
        sync_private_source_cmd(unique_id),
        cd_cmd(dc_proj_name()),
        cargo_build_unstable_cmd(),
        copy_executables_cmd("debug"@),
        copy_scenario_cmd(unique_id, scenario),
    ]
}

/// Whether `d` is an s2n-quic-dc driver of the given name for the given
/// run and scenario.
pub open spec fn is_dc_driver(
    d: NetbenchDriver,
    driver_name: Seq<char>,
    unique_id: Seq<char>,
    scenario: Seq<char>,
) -> bool {
    &&& d.driver_name@ == driver_name
    &&& strings_view(d.ssm_build_cmd@) == dc_build_cmds(unique_id, scenario)
    &&& d.proj_name@ == dc_proj_name()
    &&& d.local_path_to_proj matches Some(p) && p@ == dc_local_path()
}

fn dc_driver(driver_name: &str, unique_id: &str, scenario: &OrchestratorConfig) -> (r: NetbenchDriver)
    ensures
        is_dc_driver(r, driver_name@, unique_id@, scenario.netbench_scenario_filename@),
{
    let proj_name = "SaltyLib-Rust";
    let st = state();
    let mut sync = String::from_str("aws s3 sync ");
    sync.append(st.s3_private_path(unique_id).as_str());
    sync.append("/");
    sync.append(proj_name);
    sync.append("/ ");
    sync.append(st.host_home_path);
    sync.append("/");
    sync.append(proj_name);
    assert(sync@ =~= sync_private_source_cmd(unique_id@));
    let mut build = String::from_str("env RUSTFLAGS='--cfg s2n_quic_unstable' ");
    build.append(host_bin_path().as_str());
    build.append("/cargo build");
    let mut cmds: Vec<String> = Vec::new();
    cmds.push(sync);
    cmds.push(cd_command(proj_name));
    cmds.push(build);
    cmds.push(copy_executables_command("debug"));
    cmds.push(copy_scenario_command(unique_id, scenario.netbench_scenario_filename.as_str()));
    assert(strings_view(cmds@) =~= dc_build_cmds(unique_id@, scenario.netbench_scenario_filename@));
    NetbenchDriver {
        driver_name: owned(driver_name),
        ssm_build_cmd: cmds,
        proj_name: owned(proj_name),
        local_path_to_proj: Some(owned("/Users/apoorvko/projects/ws_SaltyLib/src")),
    }
}

/// The s2n-quic-dc server driver for the given run and scenario. Its
/// sources are to be uploaded with `local_upload_source_args` before the
/// build runs.
pub fn dc_quic_server_driver(unique_id: &str, scenario: &OrchestratorConfig) -> (r: NetbenchDriver)
    ensures
        is_dc_driver(
            r,
            "s2n-netbench-driver-server-s2n-quic-dc"@,
            unique_id@,
            scenario.netbench_scenario_filename@,
        ),
{
    dc_driver("s2n-netbench-driver-server-s2n-quic-dc", unique_id, scenario)
}

/// The s2n-quic-dc client driver for the given run and scenario. Its
/// sources are to be uploaded with `local_upload_source_args` before the
/// build runs.
pub fn dc_quic_client_driver(unique_id: &str, scenario: &OrchestratorConfig) -> (r: NetbenchDriver)
    ensures
        is_dc_driver(
            r,
            "s2n-netbench-driver-client-s2n-quic-dc"@,
            unique_id@,
            scenario.netbench_scenario_filename@,
        ),
{
    dc_driver("s2n-netbench-driver-client-s2n-quic-dc", unique_id, scenario)
}

} // verus!
