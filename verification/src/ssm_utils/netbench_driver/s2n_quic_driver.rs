//! The s2n-quic drivers, built from the netbench repository.

use crate::cli::OrchestratorConfig;
use crate::ssm_utils::netbench_driver::{GithubSource, NetbenchDriverType};
use crate::text::owned;
use vstd::prelude::*;

verus! {

/// Whether `d` is the netbench repository's driver with the given name,
/// set up for the given run and scenario.
pub open spec fn is_netbench_repo_driver(
    d: NetbenchDriverType,
    driver_name: Seq<char>,
    unique_id: Seq<char>,
    scenario: Seq<char>,
) -> bool {
    d matches NetbenchDriverType::GithubRustProj(s) && s.driver_name@ == driver_name
        && s.repo_name@ == "s2n-netbench"@ && s.unique_id@ == unique_id
        && s.netbench_scenario_filename@ == scenario
}

fn netbench_repo_driver(driver_name: &str, unique_id: &str, scenario: &OrchestratorConfig) -> (r:
    NetbenchDriverType)
    ensures
        is_netbench_repo_driver(r, driver_name@, unique_id@, scenario.netbench_scenario_filename@),
{
    NetbenchDriverType::GithubRustProj(
        GithubSource {
            unique_id: owned(unique_id),
            netbench_scenario_filename: scenario.netbench_scenario_filename.clone(),
            driver_name: owned(driver_name),
            repo_name: owned("s2n-netbench"),
        },
    )
}

/// The s2n-quic server driver for the given run and scenario.
pub fn quic_server_driver(unique_id: &str, scenario: &OrchestratorConfig) -> (r: NetbenchDriverType)
    ensures
        is_netbench_repo_driver(
            r,
            "s2n-netbench-driver-server-s2n-quic"@,
            unique_id@,
            scenario.netbench_scenario_filename@,
        ),
{
    netbench_repo_driver("s2n-netbench-driver-server-s2n-quic", unique_id, scenario)
}

/// The s2n-quic client driver for the given run and scenario.
pub fn quic_client_driver(unique_id: &str, scenario: &OrchestratorConfig) -> (r: NetbenchDriverType)
    ensures
        is_netbench_repo_driver(
            r,
            "s2n-netbench-driver-client-s2n-quic"@,
            unique_id@,
            scenario.netbench_scenario_filename@,
        ),
{
    netbench_repo_driver("s2n-netbench-driver-client-s2n-quic", unique_id, scenario)
}

} // verus!
