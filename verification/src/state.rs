//! The fixed settings of an orchestrator deployment and the names and paths
//! derived from them.

use crate::ec2_utils::instance::EndpointType;
use crate::text::{ascii_lowercase, lower_char, printable_char_str, concat2, concat3, concat4};
use vstd::prelude::*;
use vstd::string::*;

verus! {

/// The settings of a deployment: where it runs, which sources it builds,
/// where it stores results, and how long it waits between polls.
pub struct State {
    pub version: &'static str,
    pub region: &'static str,
    pub vpc_region: &'static str,
    pub instance_type: &'static str,
    pub netbench_repo: &'static str,
    pub netbench_branch: &'static str,
    pub netbench_port: u16,
    pub host_home_path: &'static str,
    pub workspace_dir: &'static str,
    pub shutdown_min: u16,
    pub poll_delay_ssm_secs: u64,
    pub russula_repo: &'static str,
    pub russula_branch: &'static str,
    pub russula_port: u16,
    pub poll_delay_russula_secs: u64,
    pub placement_group_cluster: &'static str,
    pub placement_group_partition: &'static str,
    pub s3_private_log_bucket: &'static str,
    pub s3_log_bucket: &'static str,
    /// The folder of the log bucket that holds the resources shared by all
    /// runs, such as the scenario files the hosts copy (`TS`).
    pub s3_resource_folder: &'static str,
    pub cloudfront_url: &'static str,
    pub cloud_watch_group: &'static str,
    pub instance_profile: &'static str,
    pub subnet_tag_value: (&'static str, &'static str),
    pub ssh_key_name: Option<&'static str>,
}

/// The production deployment's settings.
pub open spec fn spec_state() -> State {
    State {
        version: "v2.2.0",
        region: "us-west-2",
        vpc_region: "us-west-2",
        instance_type: "c5.4xlarge",
        netbench_repo: "https://github.com/aws/s2n-netbench.git",
        netbench_branch: "main",
        netbench_port: 4433,
        host_home_path: "/home/ec2-user",
        workspace_dir: "./target/netbench",
        shutdown_min: 120,
        poll_delay_ssm_secs: 10,
        russula_repo: "https://github.com/toidiu/netbench_orchestrator.git",
        russula_branch: "ak-main",
        russula_port: 9000,
        poll_delay_russula_secs: 5,
        placement_group_cluster: "NetbenchInfraPrimaryProd-ClusterEB0386A7-R5EWN2RCJC5L",
        placement_group_partition: "NetbenchInfraPrimaryProd-Partition9E68ED67-LC9VKTZBNJJ8",
        s3_private_log_bucket: "netbenchrunner-private-source-prod",
        s3_log_bucket: "netbenchrunnerlogs-public-prod",
        s3_resource_folder: "TS",
        cloudfront_url: "https://d37mm99fcr6hy4.cloudfront.net",
        cloud_watch_group: "NetbenchInfraPrimaryProd-NetbenchRunnerLogGroup2B821E01-yfykCkGeMuS4",
        instance_profile: "NetbenchInfraPrimaryProd-instanceProfile9C1E1CDD-kVoSXbmUxoBA",
        subnet_tag_value: ("tag:aws-cdk:netbench-subnet-name", "public-subnet-for-netbench-runners"),
        ssh_key_name: None,
    }
}

/// The production deployment's settings.
#[verifier::when_used_as_spec(spec_state)]
pub fn state() -> (r: State)
    ensures
        r == spec_state(),
{
    State {
        version: "v2.2.0",
        region: "us-west-2",
        vpc_region: "us-west-2",
        instance_type: "c5.4xlarge",
        netbench_repo: "https://github.com/aws/s2n-netbench.git",
        netbench_branch: "main",
        netbench_port: 4433,
        host_home_path: "/home/ec2-user",
        workspace_dir: "./target/netbench",
        shutdown_min: 120,
        poll_delay_ssm_secs: 10,
        russula_repo: "https://github.com/toidiu/netbench_orchestrator.git",
        russula_branch: "ak-main",
        russula_port: 9000,
        poll_delay_russula_secs: 5,
        placement_group_cluster: "NetbenchInfraPrimaryProd-ClusterEB0386A7-R5EWN2RCJC5L",
        placement_group_partition: "NetbenchInfraPrimaryProd-Partition9E68ED67-LC9VKTZBNJJ8",
        s3_private_log_bucket: "netbenchrunner-private-source-prod",
        s3_log_bucket: "netbenchrunnerlogs-public-prod",
        s3_resource_folder: "TS",
        cloudfront_url: "https://d37mm99fcr6hy4.cloudfront.net",
        cloud_watch_group: "NetbenchInfraPrimaryProd-NetbenchRunnerLogGroup2B821E01-yfykCkGeMuS4",
        instance_profile: "NetbenchInfraPrimaryProd-instanceProfile9C1E1CDD-kVoSXbmUxoBA",
        subnet_tag_value: ("tag:aws-cdk:netbench-subnet-name", "public-subnet-for-netbench-runners"),
        ssh_key_name: None,
    }
}

/// The lower-cased form of `s`, a text of printable ASCII characters:
/// `A` to `Z` become `a` to `z`, and every other character stays.
pub(crate) fn str_to_lowercase(s: &str) -> (r: String)
    requires
        forall|i: int| 0 <= i < s@.len() ==> 32 <= (#[trigger] s@[i] as u32) < 127,
    ensures
        r@ == ascii_lowercase(s@),
{
    let n = s.unicode_len();
    let mut out = String::new();
    let mut i: usize = 0;
    while i < n
        invariant
            n == s@.len(),
            i <= n,
            forall|k: int| 0 <= k < s@.len() ==> 32 <= (#[trigger] s@[k] as u32) < 127,
            out@ == ascii_lowercase(s@.subrange(0, i as int)),
        decreases n - i,
    {
        let c = s.get_char(i);
        assert(32 <= (s@[i as int] as u32) < 127);
        let b = c as u8;
        let lower = if 65 <= b && b <= 90 {
            b + 32
        } else {
            b
        };
        out.append(printable_char_str(lower));
        assert(lower as char == lower_char(c));
        assert(s@.subrange(0, i + 1) =~= s@.subrange(0, i as int).push(c));
        assert(ascii_lowercase(s@.subrange(0, i + 1)) =~= ascii_lowercase(s@.subrange(0, i as int)).push(
            lower_char(c),
        ));
        i = i + 1;
    }
    assert(s@.subrange(0, n as int) =~= s@);
    out
}

impl State {
    /// The public web address of a run's results: the CloudFront URL, a
    /// slash, and the run's id.
    pub fn cf_url(&self, unique_id: &str) -> (r: String)
        ensures
            r@ == self.cloudfront_url@ + "/"@ + unique_id@,
    {
        concat3(self.cloudfront_url, "/", unique_id)
    }

    /// The S3 location of a run's logs: `s3://BUCKET/ID`.
    pub fn s3_path(&self, unique_id: &str) -> (r: String)
        ensures
            r@ == "s3://"@ + self.s3_log_bucket@ + "/"@ + unique_id@,
    {
        concat4("s3://", self.s3_log_bucket, "/", unique_id)
    }

    /// The S3 location of a run's private sources: `s3://BUCKET/ID`.
    pub fn s3_private_path(&self, unique_id: &str) -> (r: String)
        ensures
            r@ == "s3://"@ + self.s3_private_log_bucket@ + "/"@ + unique_id@,
    {
        concat4("s3://", self.s3_private_log_bucket, "/", unique_id)
    }

    /// The hosts' directory of executables: `HOME/bin`.
    pub fn host_bin_path(&self) -> (r: String)
        ensures
            r@ == self.host_home_path@ + "/bin"@,
    {
        concat2(self.host_home_path, "/bin")
    }

    /// The hosts' cargo executable: `HOME/bin/cargo`.
    pub fn cargo_path(&self) -> (r: String)
        ensures
            r@ == self.host_home_path@ + "/bin/cargo"@,
    {
        concat2(self.host_home_path, "/bin/cargo")
    }

    /// The name of a run's security group: `netbench_ID`.
    pub fn security_group_name(&self, unique_id: &str) -> (r: String)
        ensures
            r@ == "netbench_"@ + unique_id@,
    {
        concat2("netbench_", unique_id)
    }

    /// The name of a run's host: the lower-cased endpoint type, an
    /// underscore, and the run's id.
    pub fn instance_name(&self, unique_id: &str, endpoint_type: EndpointType) -> (r: String)
        ensures
            r@ == ascii_lowercase(endpoint_type.spec_as_str()) + "_"@ + unique_id@,
    {
        proof {
            reveal_strlit("Server");
            reveal_strlit("Client");
        }
        let kind = str_to_lowercase(endpoint_type.as_str());
        concat3(kind.as_str(), "_", unique_id)
    }
}

} // verus!
