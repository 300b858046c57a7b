//! The orchestrator's inputs: command line, netbench scenario, the
//! infrastructure description, and what is derived from them.

use crate::ec2_utils::instance::EndpointType;
use crate::error::{OrchError, OrchResult};
use crate::state::state;
use crate::text::owned;
use vstd::prelude::*;
use vstd::string::*;

verus! {

/// The position of the last `/` in `p`, or -1 when there is none.
pub open spec fn last_index_of(p: Seq<char>, c: char) -> int
    decreases p.len(),
{
    if p.len() == 0 {
        -1
    } else if p.last() == c {
        p.len() - 1
    } else {
        last_index_of(p.drop_last(), c)
    }
}

/// `last_index_of` lies within the text, or is -1.
pub proof fn lemma_last_index_bounds(p: Seq<char>, c: char)
    ensures
        -1 <= last_index_of(p, c) < p.len(),
        last_index_of(p, c) >= 0 ==> p[last_index_of(p, c)] == c,
        forall|i: int| last_index_of(p, c) < i < p.len() ==> p[i] != c,
    decreases p.len(),
{
    if p.len() > 0 && p.last() != c {
        lemma_last_index_bounds(p.drop_last(), c);
        assert forall|i: int| last_index_of(p, c) < i < p.len() implies p[i] != c by {
            if i < p.len() - 1 {
                assert(p.drop_last()[i] == p[i]);
            }
        }
    }
}

/// The final component of a `/`-separated path, as `Path::file_name`
/// gives it: trailing slashes and `.` components are skipped; a path that
/// ends in `..`, or has no component, has none.
pub open spec fn file_name_spec(p: Seq<char>) -> Option<Seq<char>>
    decreases p.len(),
{
    if p.len() == 0 {
        None
    } else if p.last() == '/' {
        file_name_spec(p.drop_last())
    } else {
        let k = last_index_of(p, '/');
        let seg = p.subrange(k + 1, p.len() as int);
        if seg == seq!['.'] {
            proof {
                lemma_last_index_bounds(p, '/');
            }
            file_name_spec(p.subrange(0, k + 1))
        } else if seg == seq!['.', '.'] {
            None
        } else {
            Some(seg)
        }
    }
}

/// A file name's stem, as `Path::file_stem` gives it: the part before the
/// last `.`, or the whole name when it has no `.` other than a leading one.
pub open spec fn stem_of(name: Seq<char>) -> Seq<char> {
    let d = last_index_of(name, '.');
    if d <= 0 {
        name
    } else {
        name.subrange(0, d)
    }
}

/// The stem of a path's final component, if it has one.
pub open spec fn file_stem_spec(p: Seq<char>) -> Option<Seq<char>> {
    match file_name_spec(p) {
        Some(name) => Some(stem_of(name)),
        None => None,
    }
}

/// The start of the last component ending at `end`, and whether any `/`
/// stands before it.
fn segment_start(p: &str, end: usize) -> (r: usize)
    requires
        end <= p@.len(),
    ensures
        r as int == last_index_of(p@.subrange(0, end as int), '/') + 1,
{
    let mut k = end;
    while k > 0 && p.get_char(k - 1) != '/'
        invariant
            k <= end <= p@.len(),
            last_index_of(p@.subrange(0, end as int), '/') == last_index_of(
                p@.subrange(0, k as int),
                '/',
            ),
        decreases k,
    {
        assert(p@.subrange(0, k as int).drop_last() =~= p@.subrange(0, k - 1));
        k = k - 1;
    }
    if k > 0 {
        assert(p@.subrange(0, k as int).last() == '/');
    }
    k
}

/// The final component of `path`; see `file_name_spec`.
pub fn file_name(path: &str) -> (r: Option<&str>)
    ensures
        match file_name_spec(path@) {
            Some(n) => r matches Some(s) && s@ == n,
            None => r is None,
        },
{
    let n = path.unicode_len();
    let mut end = n;
    assert(path@.subrange(0, n as int) =~= path@);
    loop
        invariant
            n == path@.len(),
            end <= n,
            file_name_spec(path@.subrange(0, end as int)) == file_name_spec(path@),
        decreases end,
    {
        if end == 0 {
            return None;
        }
        let last = path.get_char(end - 1);
        if last == '/' {
            assert(path@.subrange(0, end as int).drop_last() =~= path@.subrange(0, end - 1));
            end = end - 1;
        } else {
            let k = segment_start(path, end);
            let ghost p = path@.subrange(0, end as int);
            proof {
                lemma_last_index_bounds(p, '/');
            }
            assert(p.subrange(k as int, end as int) =~= path@.subrange(k as int, end as int));
            let seg_len = end - k;
            if seg_len == 1 && path.get_char(k) == '.' {
                assert(p.subrange(k as int, end as int) =~= seq!['.']);
                assert(p.subrange(0, k as int) =~= path@.subrange(0, k as int));
                end = k;
            } else if seg_len == 2 && path.get_char(k) == '.' && path.get_char(k + 1) == '.' {
                assert(p.subrange(k as int, end as int) =~= seq!['.', '.']);
                return None;
            } else {
                proof {
                    if p.subrange(k as int, end as int) == seq!['.'] {
                        assert(p.subrange(k as int, end as int)[0] == path@[k as int]);
                    }
                    if p.subrange(k as int, end as int) == seq!['.', '.'] {
                        assert(p.subrange(k as int, end as int)[0] == path@[k as int]);
                        assert(p.subrange(k as int, end as int)[1] == path@[k + 1]);
                    }
                }
                return Some(path.substring_char(k, end));
            }
        }
    }
}

/// The stem of a file name; see `stem_of`.
pub fn file_stem_of_name(name: &str) -> (r: &str)
    ensures
        r@ == stem_of(name@),
{
    let n = name.unicode_len();
    let mut d = n;
    assert(name@.subrange(0, n as int) =~= name@);
    while d > 0 && name.get_char(d - 1) != '.'
        invariant
            d <= n == name@.len(),
            last_index_of(name@, '.') == last_index_of(name@.subrange(0, d as int), '.'),
        decreases d,
    {
        assert(name@.subrange(0, d as int).drop_last() =~= name@.subrange(0, d - 1));
        d = d - 1;
    }
    assert(name@.subrange(0, n as int) =~= name@);
    if d <= 1 {
        proof {
            if d == 1 {
                assert(name@.subrange(0, 1).last() == '.');
            }
        }
        name.substring_char(0, n)
    } else {
        assert(name@.subrange(0, d as int).last() == '.');
        name.substring_char(0, d - 1)
    }
}

/// Where the netbench hosts are placed.
#[derive(Clone, Copy, Debug, PartialEq, Eq, Structural)]
pub enum PlacementGroup {
    /// Packs instances close together inside an availability zone, for low
    /// latency between them.
    Cluster,
    /// Spreads instances across partitions that share no hardware.
    Partition,
}

impl Default for PlacementGroup {
    fn default() -> (r: PlacementGroup)
        ensures
            r == PlacementGroup::Cluster,
    {
        PlacementGroup::Cluster
    }
}

/// How the run's hosts are placed: the placement strategy and, optionally,
/// the availability zone of the clients and of the servers.
#[derive(Clone, Debug)]
pub struct InfraScenario {
    pub placement: PlacementGroup,
    pub client_az: Option<String>,
    pub server_az: Option<String>,
}

impl Default for InfraScenario {
    fn default() -> (r: InfraScenario)
        ensures
            r.placement == PlacementGroup::Cluster,
            r.client_az is None,
            r.server_az is None,
    {
        InfraScenario { placement: PlacementGroup::Cluster, client_az: None, server_az: None }
    }
}

/// Where an EC2 host goes: a placement group and, optionally, an
/// availability zone.
#[derive(Clone, Debug)]
pub struct PlacementSpec {
    pub group_name: String,
    pub availability_zone: Option<String>,
}

impl InfraScenario {
    /// The placement of a host of the given role: the deployment's cluster
    /// or partition placement group, and the zone chosen for that role, if
    /// any.
    pub fn placement(&self, endpoint_type: &EndpointType) -> (r: PlacementSpec)
        ensures
            r.group_name@ == (match self.placement {
                PlacementGroup::Cluster => state().placement_group_cluster@,
                PlacementGroup::Partition => state().placement_group_partition@,
            }),
            match (if *endpoint_type == EndpointType::Server {
                self.server_az
            } else {
                self.client_az
            }) {
                Some(az) => r.availability_zone matches Some(z) && z@ == az@,
                None => r.availability_zone is None,
            },
    {
        let st = state();
        let group_name = match self.placement {
            PlacementGroup::Cluster => owned(st.placement_group_cluster),
            PlacementGroup::Partition => owned(st.placement_group_partition),
        };
        let az = match endpoint_type {
            EndpointType::Server => &self.server_az,
            EndpointType::Client => &self.client_az,
        };
        let availability_zone = match az {
            Some(z) => Some(z.clone()),
            None => None,
        };
        PlacementSpec { group_name, availability_zone }
    }
}

/// The command line: the netbench scenario file, the infrastructure
/// parameter file, and the placement of hosts.
#[derive(Debug)]
pub struct Cli {
    pub netbench_scenario_file: String,
    pub cdk_config_file: String,
    pub infra: InfraScenario,
}

/// A netbench scenario, as far as the orchestrator reads it: one entry
/// (kept as its JSON text) per client and per server.
#[derive(Clone, Debug, Default)]
pub struct NetbenchScenario {
    pub clients: Vec<String>,
    pub servers: Vec<String>,
}

/// The subnet tag the hosts' subnet is found by.
#[derive(Clone, Debug)]
pub struct SubnetTag {
    key: String,
    value: String,
}

/// The infrastructure's resources, as its deployment reports them.
#[derive(Clone, Debug)]
pub struct Resources {
    netbench_runner_log_group: String,
    netbench_runner_s3_bucket: String,
    netbench_cloudfront_distibution: String,
    netbench_runner_instance_profile: String,
    netbench_runner_vpc_subnet_tag: SubnetTag,
}

/// The infrastructure parameters of a deployment.
#[derive(Clone, Debug)]
pub struct CdkConfig {
    resources: Resources,
}

impl CdkConfig {
    /// The bucket the runs' logs and results go to.
    pub closed spec fn spec_s3_bucket(&self) -> Seq<char> {
        self.resources.netbench_runner_s3_bucket@
    }

    /// Parameters made of the given resource names.
    pub fn new(
        log_group: String,
        s3_bucket: String,
        cloudfront_distribution: String,
        instance_profile: String,
        subnet_tag_key: String,
        subnet_tag_value: String,
    ) -> (r: CdkConfig)
        ensures
            r.spec_s3_bucket() == s3_bucket@,
    {
        CdkConfig {
            resources: Resources {
                netbench_runner_log_group: log_group,
                netbench_runner_s3_bucket: s3_bucket,
                netbench_cloudfront_distibution: cloudfront_distribution,
                netbench_runner_instance_profile: instance_profile,
                netbench_runner_vpc_subnet_tag: SubnetTag { key: subnet_tag_key, value: subnet_tag_value },
            },
        }
    }

    /// The bucket the runs' logs and results go to.
    pub fn netbench_runner_s3_bucket(&self) -> (r: &String)
        ensures
            r@ == self.spec_s3_bucket(),
    {
        &self.resources.netbench_runner_s3_bucket
    }
}

/// What one orchestrator run works with: the scenario file's name and
/// path, the number of clients and servers it asks for, the
/// infrastructure parameters, and the host placement.
#[derive(Clone, Debug)]
pub struct OrchestratorConfig {
    pub netbench_scenario_filename: String,
    pub netbench_scenario_filepath: String,
    pub clients: usize,
    pub servers: usize,
    pub cdk_config: CdkConfig,
    pub infra: InfraScenario,
}

/// The name of the scenario file at `path`; a path without a file name is
/// an `Init` error.
pub fn scenario_file_name(path: &str) -> (r: OrchResult<String>)
    ensures
        match file_name_spec(path@) {
            Some(n) => r matches Ok(s) && s@ == n,
            None => r matches Err(OrchError::Init { dbg }) && dbg@ == "Scenario file not specified"@,
        },
{
    match file_name(path) {
        Some(name) => Ok(owned(name)),
        None => Err(OrchError::Init { dbg: owned("Scenario file not specified") }),
    }
}

impl OrchestratorConfig {
    /// The run's configuration for the scenario read from `scenario_path`:
    /// the file's name, and as many clients and servers as the scenario
    /// lists; a path without a file name is an `Init` error.
    pub fn new(
        scenario_path: &str,
        scenario: &NetbenchScenario,
        cdk_config: CdkConfig,
        infra: InfraScenario,
    ) -> (r: OrchResult<OrchestratorConfig>)
        ensures
            match file_name_spec(scenario_path@) {
                Some(n) => r matches Ok(c) && c.netbench_scenario_filename@ == n
                    && c.netbench_scenario_filepath@ == scenario_path@
                    && c.clients == scenario.clients@.len() && c.servers == scenario.servers@.len()
                    && c.cdk_config == cdk_config && c.infra == infra,
                None => r matches Err(OrchError::Init { dbg }) && dbg@
                    == "Scenario file not specified"@,
            },
    {
        let netbench_scenario_filename = scenario_file_name(scenario_path)?;
        Ok(OrchestratorConfig {
            netbench_scenario_filename,
            netbench_scenario_filepath: owned(scenario_path),
            clients: scenario.clients.len(),
            servers: scenario.servers.len(),
            cdk_config,
            infra,
        })
    }

    /// The scenario file's stem, its name without the extension; the path
    /// must have a file name.
    pub fn netbench_scenario_file_stem(&self) -> (r: &str)
        requires
            file_name_spec(self.netbench_scenario_filepath@) is Some,
        ensures
            Some(r@) == file_stem_spec(self.netbench_scenario_filepath@),
    {
        match file_name(self.netbench_scenario_filepath.as_str()) {
            Some(name) => file_stem_of_name(name),
            None => "",
        }
    }
}

} // verus!
