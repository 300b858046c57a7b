//! The TCP drivers, from crates.io.

use crate::cli::OrchestratorConfig;
use crate::ssm_utils::netbench_driver::{crates_io_driver, is_crates_io_driver, NetbenchDriverType};
use vstd::prelude::*;

verus! {

/// The TCP server driver for the given run and scenario.
pub fn tcp_server_driver(unique_id: &str, scenario: &OrchestratorConfig) -> (r:
    NetbenchDriverType)
    ensures
        is_crates_io_driver(
            r,
            "s2n-netbench-driver-tcp"@,
            "s2n-netbench-driver-server-tcp"@,
            unique_id@,
            scenario.netbench_scenario_filename@,
        ),
{
    crates_io_driver(
        "s2n-netbench-driver-tcp",
        "s2n-netbench-driver-server-tcp",
        unique_id,
        scenario.netbench_scenario_filename.as_str(),
    )
}

/// The TCP client driver for the given run and scenario.
pub fn tcp_client_driver(unique_id: &str, scenario: &OrchestratorConfig) -> (r:
    NetbenchDriverType)
    ensures
        is_crates_io_driver(
            r,
            "s2n-netbench-driver-tcp"@,
            "s2n-netbench-driver-client-tcp"@,
            unique_id@,
            scenario.netbench_scenario_filename@,
        ),
{
    crates_io_driver(
        "s2n-netbench-driver-tcp",
        "s2n-netbench-driver-client-tcp",
        unique_id,
        scenario.netbench_scenario_filename.as_str(),
    )
}

} // verus!
