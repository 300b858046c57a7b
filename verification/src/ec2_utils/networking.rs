//! Network permissions of a run's hosts.

use crate::ec2_utils::InfraDetail;
use crate::ec2_utils::instance::InstanceDetail;
use crate::state::state;
use crate::text::{concat2, owned, strings_view};
use vstd::prelude::*;
use vstd::string::*;

verus! {

/// The single-address CIDR ranges (`IP/32`) of a list of hosts, in order.
pub open spec fn host_cidrs(hosts: Seq<InstanceDetail>) -> Seq<Seq<char>> {
    hosts.map_values(|h: InstanceDetail| h.ip@ + "/32"@)
}

fn push_host_cidrs(out: &mut Vec<String>, hosts: &Vec<InstanceDetail>)
    ensures
        strings_view(final(out)@) == strings_view(old(out)@) + host_cidrs(hosts@),
{
    let ghost start = strings_view(out@);
    let mut i: usize = 0;
    while i < hosts.len()
        invariant
            i <= hosts@.len(),
            strings_view(out@) == start + host_cidrs(hosts@.subrange(0, i as int)),
        decreases hosts@.len() - i,
    {
        let ghost prev = out@;
        out.push(concat2(hosts[i].ip.as_str(), "/32"));
        assert(hosts@.subrange(0, i + 1) =~= hosts@.subrange(0, i as int).push(hosts@[i as int]));
        assert(strings_view(out@) =~= strings_view(prev).push(hosts@[i as int].ip@ + "/32"@));
        i = i + 1;
        assert(strings_view(out@) =~= start + host_cidrs(hosts@.subrange(0, i as int)));
    }
    assert(hosts@.subrange(0, hosts@.len() as int) =~= hosts@);
}

impl InfraDetail {
    /// The ranges every host of the run is let in from: each client's and
    /// then each server's public address as a single-address range.
    pub fn public_host_ip_ranges(&self) -> (r: Vec<String>)
        ensures
            strings_view(r@) == host_cidrs(self.clients@) + host_cidrs(self.servers@),
    {
        let mut r: Vec<String> = Vec::new();
        push_host_cidrs(&mut r, &self.clients);
        push_host_cidrs(&mut r, &self.servers);
        assert(strings_view(r@) =~= host_cidrs(self.clients@) + host_cidrs(self.servers@));
        r
    }
}

/// Where the traffic a permission lets through may come from.
pub enum PermissionSource {
    /// The hosts in this security group.
    SecurityGroup(String),
    /// The addresses in these CIDR ranges.
    IpRanges(Vec<String>),
}

/// One security-group permission: a port range (-1 to -1 for every port),
/// a protocol (`-1` for every protocol), and where the traffic may come
/// from.
pub struct IpPermission {
    pub from_port: i32,
    pub to_port: i32,
    pub ip_protocol: String,
    pub source: PermissionSource,
}

/// Whether `p` lets through the given ports and protocol from the hosts of
/// security group `group`.
pub open spec fn group_permission(p: IpPermission, from: int, to: int, protocol: Seq<char>, group: Seq<char>) -> bool {
    &&& p.from_port == from
    &&& p.to_port == to
    &&& p.ip_protocol@ == protocol
    &&& p.source matches PermissionSource::SecurityGroup(g) && g@ == group
}

/// Whether `p` lets through the given ports and protocol from the CIDR
/// ranges `ranges`.
pub open spec fn ranges_permission(
    p: IpPermission,
    from: int,
    to: int,
    protocol: Seq<char>,
    ranges: Seq<Seq<char>>,
) -> bool {
    &&& p.from_port == from
    &&& p.to_port == to
    &&& p.ip_protocol@ == protocol
    &&& p.source matches PermissionSource::IpRanges(rs) && strings_view(rs@) == ranges
}

fn all_from_group(group: &String) -> (r: IpPermission)
    ensures
        group_permission(r, -1, -1, "-1"@, group@),
{
    IpPermission {
        from_port: -1,
        to_port: -1,
        ip_protocol: owned("-1"),
        source: PermissionSource::SecurityGroup(group.clone()),
    }
}

fn tcp_from_anywhere(port: i32) -> (r: IpPermission)
    ensures
        ranges_permission(r, port as int, port as int, "tcp"@, seq!["0.0.0.0/0"@]),
{
    let mut ranges: Vec<String> = Vec::new();
    ranges.push(owned("0.0.0.0/0"));
    let r = IpPermission {
        from_port: port,
        to_port: port,
        ip_protocol: owned("tcp"),
        source: PermissionSource::IpRanges(ranges),
    };
    assert(strings_view(ranges@) =~= seq!["0.0.0.0/0"@]);
    r
}

impl InfraDetail {
    /// The traffic the run's hosts may send: every protocol and port to
    /// the hosts of the run's security group.
    pub fn egress_permissions(&self) -> (r: Vec<IpPermission>)
        ensures
            r@.len() == 1,
            group_permission(r@[0], -1, -1, "-1"@, self.security_group_id@),
    {
        let mut r: Vec<IpPermission> = Vec::new();
        r.push(all_from_group(&self.security_group_id));
        r
    }

    /// The traffic the run's hosts may receive: everything from the hosts
    /// of the run's security group and from every host's address, ssh
    /// (tcp 22) from anywhere, and Russula (tcp on its port) from anywhere.
    pub fn ingress_permissions(&self) -> (r: Vec<IpPermission>)
        ensures
            r@.len() == 4,
            group_permission(r@[0], -1, -1, "-1"@, self.security_group_id@),
            ranges_permission(
                r@[1],
                -1,
                -1,
                "-1"@,
                host_cidrs(self.clients@) + host_cidrs(self.servers@),
            ),
            ranges_permission(r@[2], 22, 22, "tcp"@, seq!["0.0.0.0/0"@]),
            ranges_permission(
                r@[3],
                state().russula_port as int,
                state().russula_port as int,
                "tcp"@,
                seq!["0.0.0.0/0"@],
            ),
    {
        let mut r: Vec<IpPermission> = Vec::new();
        r.push(all_from_group(&self.security_group_id));
        r.push(
            IpPermission {
                from_port: -1,
                to_port: -1,
                ip_protocol: owned("-1"),
                source: PermissionSource::IpRanges(self.public_host_ip_ranges()),
            },
        );
        r.push(tcp_from_anywhere(22));
        r.push(tcp_from_anywhere(state().russula_port as i32));
        r
    }
}

} // verus!
