//! The commands that set up a group of hosts: install dependencies, build
//! the driver, Russula and netbench.

use crate::ssm_utils::netbench_driver::{
    cargo_build_release_cmd, cargo_build_release_command, clone_netbench_cmd,
    clone_netbench_command, copy_executables_cmd, copy_executables_command, host_bin,
    host_bin_path, NetbenchDriver,
};
use crate::ssm_utils::netbench_driver::tcp_driver::copy_shared_scenario_cmd;
use crate::ssm_utils::{is_ssm_command, SsmCommand, Step};
use crate::state::state;
use crate::text::{concat2, decimal, owned, push_decimal, strings_view};
use vstd::prelude::*;
use vstd::string::*;

verus! {

/// The S3 location of a run's logs.
pub open spec fn s3_run_path(unique_id: Seq<char>) -> Seq<char> {
    "s3://"@ + state().s3_log_bucket@ + "/"@ + unique_id
}

/// Publishes a progress message for the host group's dashboard: writes it
/// to the host's index page and copies the page to step `n` of the group.
pub open spec fn status_cmd(msg: Seq<char>, unique_id: Seq<char>, host_group: Seq<char>, n: Seq<char>) -> Seq<char> {
    "echo "@ + msg + " > /home/ec2-user/index.html && aws s3 cp /home/ec2-user/index.html "@
        + s3_run_path(unique_id) + "/"@ + host_group + "-step-"@ + n
}

fn status_command(msg: &str, unique_id: &str, host_group: &str, n: &str) -> (r: String)
    ensures
        r@ == status_cmd(msg@, unique_id@, host_group@, n@),
{
    let mut s = String::from_str("echo ");
    s.append(msg);
    s.append(" > /home/ec2-user/index.html && aws s3 cp /home/ec2-user/index.html ");
    s.append(state().s3_path(unique_id).as_str());
    s.append("/");
    s.append(host_group);
    s.append("-step-");
    s.append(n);
    s
}

/// The commands that prepare a host: schedule its shutdown, create its
/// directory of executables, update and install packages, install Rust,
/// and link cargo into the directory of executables, publishing progress
/// along the way.
pub open spec fn install_deps_cmds(host_group: Seq<char>, unique_id: Seq<char>) -> Seq<Seq<char>> {
    seq![
        "shutdown -P +"@ + decimal(state().shutdown_min as nat),
        "mkdir -p /home/ec2-user/bin"@,
        status_cmd("ec2 up"@, unique_id, host_group, "1"@),
        "yum upgrade -y"@,
        status_cmd("yum upgrade finished"@, unique_id, host_group, "2"@),
        "timeout 5m bash -c 'until yum install cargo cmake git perl openssl-devel bpftrace perf tree -y; do sleep 10; done' || (echo yum failed > /home/ec2-user/index.html; aws s3 cp /home/ec2-user/index.html "@
            + s3_run_path(unique_id) + "/"@ + host_group + "-step-3; exit 1)"@,
        status_cmd("yum finished"@, unique_id, host_group, "3"@),
        "runuser -u ec2-user -- curl --proto '=https' --tlsv1.2 -sSf https://sh.rustup.rs > rustup.rs"@,
        "chmod +x rustup.rs"@,
        "chgrp ec2-user rustup.rs"@,
        "chown ec2-user rustup.rs"@,
        "sh ./rustup.rs -y"@,
        "runuser -u ec2-user -- sh ./rustup.rs -y"@,
        "./root/.cargo/bin/rustup update"@,
        "runuser -u ec2-user -- ./.cargo/bin/rustup update"@,
        "ln -s /home/ec2-user/.cargo/bin/cargo "@ + host_bin() + "/cargo"@,
    ]
}

/// The cargo that the later setup steps run from the hosts' directory of
/// executables is put there by the `Configure` step: its last command links
/// the user's cargo to `/home/ec2-user/bin/cargo`, the very program the
/// Russula build and the netbench release build run.
pub proof fn lemma_configure_links_cargo(host_group: Seq<char>, unique_id: Seq<char>)
    ensures
        install_deps_cmds(host_group, unique_id).last()
            == "ln -s /home/ec2-user/.cargo/bin/cargo /home/ec2-user/bin/cargo"@,
        build_russula_cmds().last() == "/home/ec2-user/bin/cargo"@ + " build"@,
        cargo_build_release_cmd() == "/home/ec2-user/bin/cargo"@ + " build --release"@,
{
    reveal_strlit("ln -s /home/ec2-user/.cargo/bin/cargo ");
    reveal_strlit("/home/ec2-user");
    reveal_strlit("/bin");
    reveal_strlit("/cargo");
    reveal_strlit("ln -s /home/ec2-user/.cargo/bin/cargo /home/ec2-user/bin/cargo");
    reveal_strlit("/home/ec2-user/bin/cargo");
    reveal_strlit("/cargo build");
    reveal_strlit(" build");
    reveal_strlit("/cargo build --release");
    reveal_strlit(" build --release");
    assert("ln -s /home/ec2-user/.cargo/bin/cargo "@ + host_bin() + "/cargo"@
        =~= "ln -s /home/ec2-user/.cargo/bin/cargo /home/ec2-user/bin/cargo"@);
    assert(host_bin() + "/cargo build"@ =~= "/home/ec2-user/bin/cargo"@ + " build"@);
    assert(host_bin() + "/cargo build --release"@ =~= "/home/ec2-user/bin/cargo"@ + " build --release"@);
}

/// The setup command for a host group: the `Configure` step, waiting for
/// nothing; see `install_deps_cmds`. Its last command links cargo into the
/// hosts' directory of executables.
pub fn install_deps_cmd(host_group: &str, unique_id: &str) -> (r: SsmCommand)
    ensures
        is_ssm_command(
            r,
            seq![],
            Step::Configure,
            host_group@,
            "configure_host_"@ + host_group@,
            install_deps_cmds(host_group@, unique_id@),
        ),
        r.commands@.len() > 0 && r.commands@.last()@
            == "ln -s /home/ec2-user/.cargo/bin/cargo /home/ec2-user/bin/cargo"@,
{
    proof {
        lemma_configure_links_cargo(host_group@, unique_id@);
    }
    let st = state();
    let mut shutdown = String::from_str("shutdown -P +");
    push_decimal(&mut shutdown, st.shutdown_min as u64);
    let mut yum = String::from_str(
        "timeout 5m bash -c 'until yum install cargo cmake git perl openssl-devel bpftrace perf tree -y; do sleep 10; done' || (echo yum failed > /home/ec2-user/index.html; aws s3 cp /home/ec2-user/index.html ",
    );
    yum.append(st.s3_path(unique_id).as_str());
    yum.append("/");
    yum.append(host_group);
    yum.append("-step-3; exit 1)");
    let mut link = String::from_str("ln -s /home/ec2-user/.cargo/bin/cargo ");
    link.append(host_bin_path().as_str());
    link.append("/cargo");
    let mut cmds: Vec<String> = Vec::new();
    cmds.push(shutdown);
    cmds.push(owned("mkdir -p /home/ec2-user/bin"));
    cmds.push(status_command("ec2 up", unique_id, host_group, "1"));
    cmds.push(owned("yum upgrade -y"));
    cmds.push(status_command("yum upgrade finished", unique_id, host_group, "2"));
    cmds.push(yum);
    cmds.push(status_command("yum finished", unique_id, host_group, "3"));
    cmds.push(
        owned(
            "runuser -u ec2-user -- curl --proto '=https' --tlsv1.2 -sSf https://sh.rustup.rs > rustup.rs",
        ),
    );
    cmds.push(owned("chmod +x rustup.rs"));
    cmds.push(owned("chgrp ec2-user rustup.rs"));
    cmds.push(owned("chown ec2-user rustup.rs"));
    cmds.push(owned("sh ./rustup.rs -y"));
    cmds.push(owned("runuser -u ec2-user -- sh ./rustup.rs -y"));
    cmds.push(owned("./root/.cargo/bin/rustup update"));
    cmds.push(owned("runuser -u ec2-user -- ./.cargo/bin/rustup update"));
    cmds.push(link);
    assert(yum@ =~= "timeout 5m bash -c 'until yum install cargo cmake git perl openssl-devel bpftrace perf tree -y; do sleep 10; done' || (echo yum failed > /home/ec2-user/index.html; aws s3 cp /home/ec2-user/index.html "@
            + s3_run_path(unique_id@) + "/"@ + host_group@ + "-step-3; exit 1)"@);
    assert(strings_view(cmds@) =~= install_deps_cmds(host_group@, unique_id@));
    let r = SsmCommand {
        wait_steps: Vec::new(),
        step: Step::Configure,
        endpoint: owned(host_group),
        comment: concat2("configure_host_", host_group),
        commands: cmds,
    };
    assert(r.wait_steps@ =~= seq![]);
    r
}

/// The commands that build a driver on the hosts: fetch the run's copy of
/// the driver's project, then the driver's own build commands.
pub open spec fn build_driver_cmds(driver: NetbenchDriver, unique_id: Seq<char>) -> Seq<Seq<char>> {
    seq![
        "aws s3 sync "@ + s3_run_path(unique_id) + "/"@ + driver.proj_name@ + "/ "@
            + state().host_home_path@ + "/"@ + driver.proj_name@,
    ] + strings_view(driver.ssm_build_cmd@)
}

/// The driver build command for a host group: the `BuildDriver` step,
/// after `Configure`; see `build_driver_cmds`.
pub fn build_custom_driver_cmd(host_group: &str, driver: &NetbenchDriver, unique_id: &str) -> (r:
    SsmCommand)
    ensures
        is_ssm_command(
            r,
            seq![Step::Configure],
            Step::BuildDriver,
            host_group@,
            "build_driver_"@ + driver.proj_name@,
            build_driver_cmds(*driver, unique_id@),
        ),
{
    let st = state();
    let mut sync = String::from_str("aws s3 sync ");
    sync.append(st.s3_path(unique_id).as_str());
    sync.append("/");
    sync.append(driver.proj_name.as_str());
    sync.append("/ ");
    sync.append(st.host_home_path);
    sync.append("/");
    sync.append(driver.proj_name.as_str());
    let mut cmds: Vec<String> = Vec::new();
    cmds.push(sync);
    let mut rest = driver.ssm_build_cmd.clone();
    let ghost first = cmds@;
    let ghost rest_view = rest@;
    cmds.append(&mut rest);
    assert(strings_view(cmds@) =~= build_driver_cmds(*driver, unique_id@));
    let mut waits: Vec<Step> = Vec::new();
    waits.push(Step::Configure);
    let r = SsmCommand {
        wait_steps: waits,
        step: Step::BuildDriver,
        endpoint: owned(host_group),
        comment: concat2("build_driver_", driver.proj_name.as_str()),
        commands: cmds,
    };
    assert(r.wait_steps@ =~= seq![Step::Configure]);
    r
}

/// The commands that build Russula on the hosts: clone the orchestrator at
/// the deployment's branch, enter it, and build it.
pub open spec fn build_russula_cmds() -> Seq<Seq<char>> {
    seq![
        "git clone --branch "@ + state().russula_branch@ + " "@ + state().russula_repo@,
        "cd netbench_orchestrator"@,
        host_bin() + "/cargo build"@,
    ]
}

/// The Russula build command for a host group: the `BuildRussula` step,
/// after `Configure`; see `build_russula_cmds`.
pub fn build_russula_cmd(host_group: &str) -> (r: SsmCommand)
    ensures
        is_ssm_command(
            r,
            seq![Step::Configure],
            Step::BuildRussula,
            host_group@,
            "build_russula_"@ + host_group@,
            build_russula_cmds(),
        ),
{
    let st = state();
    let mut clone = String::from_str("git clone --branch ");
    clone.append(st.russula_branch);
    clone.append(" ");
    clone.append(st.russula_repo);
    let mut build = host_bin_path();
    build.append("/cargo build");
    let mut cmds: Vec<String> = Vec::new();
    cmds.push(clone);
    cmds.push(owned("cd netbench_orchestrator"));
    cmds.push(build);
    assert(strings_view(cmds@) =~= build_russula_cmds());
    let mut waits: Vec<Step> = Vec::new();
    waits.push(Step::Configure);
    let r = SsmCommand {
        wait_steps: waits,
        step: Step::BuildRussula,
        endpoint: owned(host_group),
        comment: concat2("build_russula_", host_group),
        commands: cmds,
    };
    assert(r.wait_steps@ =~= seq![Step::Configure]);
    r
}

/// The commands that build netbench on the hosts: clone it, enter it,
/// fetch the shared scenario, build it in release mode and copy its
/// executables, publishing progress along the way.
pub open spec fn build_netbench_cmds(host_group: Seq<char>, unique_id: Seq<char>) -> Seq<Seq<char>> {
    seq![
        clone_netbench_cmd(),
        "cd s2n-netbench"@,
        status_cmd("clone_netbench"@, unique_id, host_group, "4"@),
        copy_shared_scenario_cmd(),
        status_cmd("downloaded_scenario_file"@, unique_id, host_group, "5"@),
        cargo_build_release_cmd(),
        copy_executables_cmd("release"@),
        status_cmd("cargo build finished"@, unique_id, host_group, "6"@),
    ]
}

/// The netbench build command for a host group: the `BuildNetbench` step,
/// after `Configure`; see `build_netbench_cmds`.
pub fn build_netbench_cmd(host_group: &str, unique_id: &str) -> (r: SsmCommand)
    ensures
        is_ssm_command(
            r,
            seq![Step::Configure],
            Step::BuildNetbench,
            host_group@,
            "build_netbench_"@ + host_group@,
            build_netbench_cmds(host_group@, unique_id@),
        ),
{
    let st = state();
    let mut copy = String::from_str("aws s3 cp s3://");
    copy.append(st.s3_log_bucket);
    copy.append("/");
    copy.append(st.s3_resource_folder);
    copy.append("/request_response.json ");
    copy.append(host_bin_path().as_str());
    copy.append("/request_response.json");
    let mut cmds: Vec<String> = Vec::new();
    cmds.push(clone_netbench_command());
    cmds.push(owned("cd s2n-netbench"));
    cmds.push(status_command("clone_netbench", unique_id, host_group, "4"));
    cmds.push(copy);
    cmds.push(status_command("downloaded_scenario_file", unique_id, host_group, "5"));
    cmds.push(cargo_build_release_command());
    cmds.push(copy_executables_command("release"));
    cmds.push(status_command("cargo build finished", unique_id, host_group, "6"));
    assert(strings_view(cmds@) =~= build_netbench_cmds(host_group@, unique_id@));
    let mut waits: Vec<Step> = Vec::new();
    waits.push(Step::Configure);
    let r = SsmCommand {
        wait_steps: waits,
        step: Step::BuildNetbench,
        endpoint: owned(host_group),
        comment: concat2("build_netbench_", host_group),
        commands: cmds,
    };
    assert(r.wait_steps@ =~= seq![Step::Configure]);
    r
}

/// The four setup commands of a host group, in the order they are sent:
/// install dependencies, build the driver, build Russula, build netbench.
pub fn collect_config_cmds(host_group: &str, driver: &NetbenchDriver, unique_id: &str) -> (r: Vec<
    SsmCommand,
>)
    ensures
        r@.len() == 4,
        is_ssm_command(
            r@[0],
            seq![],
            Step::Configure,
            host_group@,
            "configure_host_"@ + host_group@,
            install_deps_cmds(host_group@, unique_id@),
        ),
        is_ssm_command(
            r@[1],
            seq![Step::Configure],
            Step::BuildDriver,
            host_group@,
            "build_driver_"@ + driver.proj_name@,
            build_driver_cmds(*driver, unique_id@),
        ),
        is_ssm_command(
            r@[2],
            seq![Step::Configure],
            Step::BuildRussula,
            host_group@,
            "build_russula_"@ + host_group@,
            build_russula_cmds(),
        ),
        is_ssm_command(
            r@[3],
            seq![Step::Configure],
            Step::BuildNetbench,
            host_group@,
            "build_netbench_"@ + host_group@,
            build_netbench_cmds(host_group@, unique_id@),
        ),
{
    let mut v: Vec<SsmCommand> = Vec::new();
    v.push(install_deps_cmd(host_group, unique_id));
    v.push(build_custom_driver_cmd(host_group, driver, unique_id));
    v.push(build_russula_cmd(host_group));
    v.push(build_netbench_cmd(host_group, unique_id));
    v
}

} // verus!
