//! The native-tls drivers, from crates.io.

use crate::cli::OrchestratorConfig;
use crate::ssm_utils::netbench_driver::{crates_io_driver, is_crates_io_driver, NetbenchDriverType};
use vstd::prelude::*;

verus! {

/// The native-tls server driver for the given run and scenario.
pub fn native_tls_server_driver(unique_id: &str, scenario: &OrchestratorConfig) -> (r:
    NetbenchDriverType)
    ensures
        is_crates_io_driver(
            r,
            "s2n-netbench-driver-native-tls"@,
            "s2n-netbench-driver-server-native-tls"@,
            unique_id@,
            scenario.netbench_scenario_filename@,
        ),
{
    crates_io_driver(
        "s2n-netbench-driver-native-tls",
        "s2n-netbench-driver-server-native-tls",
        unique_id,
        scenario.netbench_scenario_filename.as_str(),
    )
}

/// The native-tls client driver for the given run and scenario.
pub fn native_tls_client_driver(unique_id: &str, scenario: &OrchestratorConfig) -> (r:
    NetbenchDriverType)
    ensures
        is_crates_io_driver(
            r,
            "s2n-netbench-driver-native-tls"@,
            "s2n-netbench-driver-client-native-tls"@,
            unique_id@,
            scenario.netbench_scenario_filename@,
        ),
{
    crates_io_driver(
        "s2n-netbench-driver-native-tls",
        "s2n-netbench-driver-client-native-tls",
        unique_id,
        scenario.netbench_scenario_filename.as_str(),
    )
}

} // verus!
