//! Netbench drivers: where each driver's sources come from and the
//! commands that build it on a host.

pub mod native_tls_driver;
pub mod s2n_quic_dc_driver;
pub mod s2n_quic_driver;
pub mod s2n_tls_driver;
pub mod tcp_driver;
pub mod tcp_driver_crates;

use crate::state::state;
use crate::text::{concat2, owned, strings_view};
use vstd::prelude::*;
use vstd::string::*;

verus! {

/// A driver built from a GitHub repository.
#[derive(Clone, Debug)]
pub struct GithubSource {
    pub driver_name: String,
    pub repo_name: String,
    pub unique_id: String,
    pub netbench_scenario_filename: String,
}

/// A driver built from sources on the orchestrator's machine, with its own
/// build commands.
#[derive(Clone, Debug)]
pub struct LocalSource {
    pub driver_name: String,
    pub ssm_build_cmd: Vec<String>,
    pub proj_name: String,
    pub local_path_to_proj: String,
    pub unique_id: String,
    pub netbench_scenario_filename: String,
}

/// A driver published on crates.io.
#[derive(Clone, Debug)]
pub struct CrateIoSource {
    pub krate: String,
    pub driver_name: String,
    pub version: String,
    pub unique_id: String,
    pub netbench_scenario_filename: String,
}

/// Where a netbench driver comes from.
#[derive(Clone, Debug)]
pub enum NetbenchDriverType {
    GithubRustProj(GithubSource),
    Local(LocalSource),
    CratesIo(CrateIoSource),
}

/// A driver together with the commands that build it on a host and, for
/// sources on the orchestrator's machine, where they are.
#[derive(Clone, Debug)]
pub struct NetbenchDriver {
    pub driver_name: String,
    pub ssm_build_cmd: Vec<String>,
    pub proj_name: String,
    pub local_path_to_proj: Option<String>,
}

/// The hosts' directory of executables.
pub open spec fn host_bin() -> Seq<char> {
    state().host_home_path@ + "/bin"@
}

/// Clones the netbench repository at the deployment's branch.
pub open spec fn clone_netbench_cmd() -> Seq<char> {
    "git clone --branch "@ + state().netbench_branch@ + " "@ + state().netbench_repo@
}

/// Enters a directory.
pub open spec fn cd_cmd(dir: Seq<char>) -> Seq<char> {
    "cd "@ + dir
}

/// Builds the project in release mode with the hosts' cargo.
pub open spec fn cargo_build_release_cmd() -> Seq<char> {
    host_bin() + "/cargo build --release"@
}

/// Copies the executables built under `target/PROFILE` to the hosts'
/// directory of executables.
pub open spec fn copy_executables_cmd(profile: Seq<char>) -> Seq<char> {
    "find target/"@ + profile + " -maxdepth 1 -type f -perm /a+x -exec cp {} "@ + host_bin()
        + " \\;"@
}

/// Copies a run's scenario file from the log bucket to the hosts'
/// directory of executables.
pub open spec fn copy_scenario_cmd(unique_id: Seq<char>, scenario: Seq<char>) -> Seq<char> {
    "aws s3 cp s3://"@ + state().s3_log_bucket@ + "/"@ + unique_id + "/"@ + scenario + " "@
        + host_bin() + "/"@ + scenario
}

pub(crate) fn host_bin_path() -> (r: String)
    ensures
        r@ == host_bin(),
{
    state().host_bin_path()
}

pub(crate) fn clone_netbench_command() -> (r: String)
    ensures
        r@ == clone_netbench_cmd(),
{
    let st = state();
    let mut s = String::from_str("git clone --branch ");
    s.append(st.netbench_branch);
    s.append(" ");
    s.append(st.netbench_repo);
    s
}

pub(crate) fn cd_command(dir: &str) -> (r: String)
    ensures
        r@ == cd_cmd(dir@),
{
    concat2("cd ", dir)
}

pub(crate) fn cargo_build_release_command() -> (r: String)
    ensures
        r@ == cargo_build_release_cmd(),
{
    let mut s = host_bin_path();
    s.append("/cargo build --release");
    s
}

pub(crate) fn copy_executables_command(profile: &str) -> (r: String)
    ensures
        r@ == copy_executables_cmd(profile@),
{
    let mut s = String::from_str("find target/");
    s.append(profile);
    s.append(" -maxdepth 1 -type f -perm /a+x -exec cp {} ");
    s.append(host_bin_path().as_str());
    s.append(" \\;");
    s
}

pub(crate) fn copy_scenario_command(unique_id: &str, scenario: &str) -> (r: String)
    ensures
        r@ == copy_scenario_cmd(unique_id@, scenario@),
{
    let bin = host_bin_path();
    let mut s = String::from_str("aws s3 cp s3://");
    s.append(state().s3_log_bucket);
    s.append("/");
    s.append(unique_id);
    s.append("/");
    s.append(scenario);
    s.append(" ");
    s.append(bin.as_str());
    s.append("/");
    s.append(scenario);
    s
}

/// The commands that build a driver from its GitHub repository: clone
/// netbench, enter the repository, build it in release mode, copy the
/// executables, and fetch the run's scenario file.
pub open spec fn github_build_cmds(
    repo_name: Seq<char>,
    unique_id: Seq<char>,
    scenario: Seq<char>,
) -> Seq<Seq<char>> {
    seq![
        clone_netbench_cmd(),
        cd_cmd(repo_name),
        cargo_build_release_cmd(),
        copy_executables_cmd("release"@),
        copy_scenario_cmd(unique_id, scenario),
    ]
}

impl GithubSource {
    /// The commands that build this driver on a host; see
    /// `github_build_cmds`.
    pub fn ssm_build_rust_proj(&self) -> (r: Vec<String>)
        ensures
            strings_view(r@) == github_build_cmds(
                self.repo_name@,
                self.unique_id@,
                self.netbench_scenario_filename@,
            ),
    {
        let mut v: Vec<String> = Vec::new();
        v.push(clone_netbench_command());
        v.push(cd_command(self.repo_name.as_str()));
        v.push(cargo_build_release_command());
        v.push(copy_executables_command("release"));
        v.push(copy_scenario_command(
            self.unique_id.as_str(),
            self.netbench_scenario_filename.as_str(),
        ));
        assert(strings_view(v@) =~= github_build_cmds(
            self.repo_name@,
            self.unique_id@,
            self.netbench_scenario_filename@,
        ));
        v
    }
}

/// A driver's build commands: a GitHub driver's are those of
/// `github_build_cmds`, a local driver's are its own, and a crates.io
/// driver has none.
pub open spec fn driver_build_cmds(d: NetbenchDriverType) -> Seq<Seq<char>> {
    match d {
        NetbenchDriverType::GithubRustProj(s) => github_build_cmds(
            s.repo_name@,
            s.unique_id@,
            s.netbench_scenario_filename@,
        ),
        NetbenchDriverType::Local(s) => strings_view(s.ssm_build_cmd@),
        NetbenchDriverType::CratesIo(_) => Seq::empty(),
    }
}

impl NetbenchDriverType {
    /// The name of the driver's executable.
    pub fn driver_name(&self) -> (r: &String)
        ensures
            r@ == (match self {
                NetbenchDriverType::GithubRustProj(s) => s.driver_name@,
                NetbenchDriverType::Local(s) => s.driver_name@,
                NetbenchDriverType::CratesIo(s) => s.driver_name@,
            }),
    {
        match self {
            NetbenchDriverType::GithubRustProj(source) => &source.driver_name,
            NetbenchDriverType::Local(source) => &source.driver_name,
            NetbenchDriverType::CratesIo(source) => &source.driver_name,
        }
    }

    /// The base project's name: the repository, the local project, or the
    /// crate.
    pub fn proj_name(&self) -> (r: &String)
        ensures
            r@ == (match self {
                NetbenchDriverType::GithubRustProj(s) => s.repo_name@,
                NetbenchDriverType::Local(s) => s.proj_name@,
                NetbenchDriverType::CratesIo(s) => s.krate@,
            }),
    {
        match self {
            NetbenchDriverType::GithubRustProj(source) => &source.repo_name,
            NetbenchDriverType::Local(source) => &source.proj_name,
            NetbenchDriverType::CratesIo(source) => &source.krate,
        }
    }

    /// The commands that build the driver on a host; see
    /// `driver_build_cmds`.
    pub fn ssm_build_cmd(&self) -> (r: Vec<String>)
        ensures
            strings_view(r@) == driver_build_cmds(*self),
    {
        match self {
            NetbenchDriverType::GithubRustProj(source) => source.ssm_build_rust_proj(),
            NetbenchDriverType::Local(source) => source.ssm_build_cmd.clone(),
            NetbenchDriverType::CratesIo(_) => {
                let v: Vec<String> = Vec::new();
                assert(strings_view(v@) =~= Seq::empty());
                v
            },
        }
    }

    /// The driver as the hosts build it: its name, its build commands, its
    /// base project, and, for sources on the orchestrator's machine, where
    /// they are.
    pub fn netbench_driver(&self) -> (r: NetbenchDriver)
        ensures
            r.driver_name@ == (match self {
                NetbenchDriverType::GithubRustProj(s) => s.driver_name@,
                NetbenchDriverType::Local(s) => s.driver_name@,
                NetbenchDriverType::CratesIo(s) => s.driver_name@,
            }),
            strings_view(r.ssm_build_cmd@) == driver_build_cmds(*self),
            r.proj_name@ == (match self {
                NetbenchDriverType::GithubRustProj(s) => s.repo_name@,
                NetbenchDriverType::Local(s) => s.proj_name@,
                NetbenchDriverType::CratesIo(s) => s.krate@,
            }),
            match self {
                NetbenchDriverType::Local(s) => r.local_path_to_proj matches Some(p) && p@
                    == s.local_path_to_proj@,
                _ => r.local_path_to_proj is None,
            },
    {
        let local_path_to_proj = match self {
            NetbenchDriverType::Local(source) => Some(source.local_path_to_proj.clone()),
            _ => None,
        };
        NetbenchDriver {
            driver_name: self.driver_name().clone(),
            ssm_build_cmd: self.ssm_build_cmd(),
            proj_name: self.proj_name().clone(),
            local_path_to_proj,
        }
    }

    /// The run the driver was set up for.
    pub fn unique_id(&self) -> (r: &str)
        ensures
            r@ == (match self {
                NetbenchDriverType::GithubRustProj(s) => s.unique_id@,
                NetbenchDriverType::Local(s) => s.unique_id@,
                NetbenchDriverType::CratesIo(s) => s.unique_id@,
            }),
    {
        match self {
            NetbenchDriverType::GithubRustProj(source) => source.unique_id.as_str(),
            NetbenchDriverType::Local(source) => source.unique_id.as_str(),
            NetbenchDriverType::CratesIo(source) => source.unique_id.as_str(),
        }
    }

    /// The scenario file the driver runs.
    pub fn netbench_scenario_filename(&self) -> (r: &str)
        ensures
            r@ == (match self {
                NetbenchDriverType::GithubRustProj(s) => s.netbench_scenario_filename@,
                NetbenchDriverType::Local(s) => s.netbench_scenario_filename@,
                NetbenchDriverType::CratesIo(s) => s.netbench_scenario_filename@,
            }),
    {
        match self {
            NetbenchDriverType::GithubRustProj(source) => source.netbench_scenario_filename.as_str(),
            NetbenchDriverType::Local(source) => source.netbench_scenario_filename.as_str(),
            NetbenchDriverType::CratesIo(source) => source.netbench_scenario_filename.as_str(),
        }
    }
}

/// Whether `d` is the crates.io driver with the given crate and driver
/// names, any version, set up for the given run and scenario.
pub open spec fn is_crates_io_driver(
    d: NetbenchDriverType,
    krate: Seq<char>,
    driver_name: Seq<char>,
    unique_id: Seq<char>,
    scenario: Seq<char>,
) -> bool {
    d matches NetbenchDriverType::CratesIo(s) && s.krate@ == krate && s.driver_name@ == driver_name
        && s.version@ == "*"@ && s.unique_id@ == unique_id && s.netbench_scenario_filename@
        == scenario
}

/// The crates.io driver with the given names, any version, for the given
/// run and scenario.
pub(crate) fn crates_io_driver(krate: &str, driver_name: &str, unique_id: &str, scenario: &str) -> (r:
    NetbenchDriverType)
    ensures
        is_crates_io_driver(r, krate@, driver_name@, unique_id@, scenario@),
{
    NetbenchDriverType::CratesIo(
        CrateIoSource {
            krate: owned(krate),
            driver_name: owned(driver_name),
            version: owned("*"),
            unique_id: owned(unique_id),
            netbench_scenario_filename: owned(scenario),
        },
    )
}

/// The arguments of the `aws` command that copies a local project's
/// sources to the run's private bucket, leaving out build outputs and git
/// data.
pub open spec fn upload_source_args(
    local_path: Seq<char>,
    proj_name: Seq<char>,
    unique_id: Seq<char>,
) -> Seq<Seq<char>> {
    seq![
        "s3"@,
        "sync"@,
        local_path + "/"@ + proj_name,
        "s3://"@ + state().s3_private_log_bucket@ + "/"@ + unique_id + "/"@ + proj_name + "/"@,
        "--exclude"@,
        "target/*"@,
        "--exclude"@,
        ".git/*"@,
    ]
}

/// The arguments of the `aws` command that uploads a local project's
/// sources; see `upload_source_args`.
pub fn local_upload_source_args(local_path_to_proj: &str, proj_name: &str, unique_id: &str) -> (r:
    Vec<String>)
    ensures
        strings_view(r@) == upload_source_args(local_path_to_proj@, proj_name@, unique_id@),
{
    let mut v: Vec<String> = Vec::new();
    v.push(owned("s3"));
    v.push(owned("sync"));
    let mut from = String::from_str(local_path_to_proj);
    from.append("/");
    from.append(proj_name);
    v.push(from);
    let mut to = state().s3_private_path(unique_id);
    to.append("/");
    to.append(proj_name);
    to.append("/");
    v.push(to);
    v.push(owned("--exclude"));
    v.push(owned("target/*"));
    v.push(owned("--exclude"));
    v.push(owned(".git/*"));
    assert(strings_view(v@) =~= upload_source_args(local_path_to_proj@, proj_name@, unique_id@));
    v
}

} // verus!
