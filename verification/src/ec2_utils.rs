//! The EC2 side of a run: hosts, their roles and addresses, and the
//! settings they are launched with.

pub mod instance;
pub mod launch_plan;
pub mod networking;

use crate::ec2_utils::instance::InstanceDetail;
use crate::text::strings_view;
use vstd::prelude::*;

verus! {

/// The resources of a run: its security group and its client and server
/// hosts.
pub struct InfraDetail {
    pub security_group_id: String,
    pub clients: Vec<InstanceDetail>,
    pub servers: Vec<InstanceDetail>,
}

/// The ids of a list of hosts, in order.
pub open spec fn ids_of(hosts: Seq<InstanceDetail>) -> Seq<Seq<char>> {
    hosts.map_values(|h: InstanceDetail| h.instance_id@)
}

/// The ids of `hosts`, in order.
pub fn instance_ids(hosts: &Vec<InstanceDetail>) -> (r: Vec<String>)
    ensures
        strings_view(r@) == ids_of(hosts@),
{
    let mut r: Vec<String> = Vec::new();
    let mut i: usize = 0;
    while i < hosts.len()
        invariant
            i <= hosts@.len(),
            strings_view(r@) == ids_of(hosts@.subrange(0, i as int)),
        decreases hosts@.len() - i,
    {
        let ghost prev = r@;
        r.push(hosts[i].instance_id.clone());
        assert(hosts@.subrange(0, i + 1) =~= hosts@.subrange(0, i as int).push(hosts@[i as int]));
        assert(strings_view(r@) =~= strings_view(prev).push(hosts@[i as int].instance_id@));
        i = i + 1;
        assert(strings_view(r@) =~= ids_of(hosts@.subrange(0, i as int)));
    }
    assert(hosts@.subrange(0, hosts@.len() as int) =~= hosts@);
    r
}

impl InfraDetail {
    /// The ids of the client hosts.
    pub fn client_ids(&self) -> (r: Vec<String>)
        ensures
            strings_view(r@) == ids_of(self.clients@),
    {
        instance_ids(&self.clients)
    }

    /// The ids of the server hosts.
    pub fn server_ids(&self) -> (r: Vec<String>)
        ensures
            strings_view(r@) == ids_of(self.servers@),
    {
        instance_ids(&self.servers)
    }

    /// The ids of every host to delete at cleanup: the servers, then the
    /// clients.
    pub fn all_instance_ids(&self) -> (r: Vec<String>)
        ensures
            strings_view(r@) == ids_of(self.servers@) + ids_of(self.clients@),
    {
        let mut r = instance_ids(&self.servers);
        let mut c = instance_ids(&self.clients);
        let ghost a = r@;
        let ghost b = c@;
        r.append(&mut c);
        assert(r@ == a + b);
        assert(strings_view(r@) =~= strings_view(a) + strings_view(b));
        r
    }
}

} // verus!
