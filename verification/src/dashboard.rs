//! The run's status dashboard: the pages and messages published as the
//! run goes.

use crate::ec2_utils::instance::{EndpointType, InstanceDetail};
use crate::state::{state, str_to_lowercase};
use crate::text::{ascii_lowercase, concat2, concat3, concat_all, replace_all, replace_spec};
use vstd::prelude::*;
use vstd::string::*;

verus! {

/// The dashboard updates of a run.
pub enum Step<'a> {
    UploadIndex,
    ServerHostsRunning(&'a Vec<InstanceDetail>),
    ClientHostsRunning(&'a Vec<InstanceDetail>),
}

/// The links and key of a run's index page: the page's public address,
/// the address prefixes of the server, client and final steps, and the
/// key the page is stored under.
pub struct IndexLinks {
    pub status_url: String,
    pub server_prefix: String,
    pub client_prefix: String,
    pub finished_prefix: String,
    pub index_key: String,
}

/// The index page's links for a run; see `IndexLinks`.
pub fn index_links(unique_id: &str) -> (r: IndexLinks)
    ensures
        r.status_url@ == state().cloudfront_url@ + "/"@ + unique_id@ + "/index.html"@,
        r.server_prefix@ == state().cloudfront_url@ + "/"@ + unique_id@ + "/server-step-"@,
        r.client_prefix@ == state().cloudfront_url@ + "/"@ + unique_id@ + "/client-step-"@,
        r.finished_prefix@ == state().cloudfront_url@ + "/"@ + unique_id@ + "/finished-step-"@,
        r.index_key@ == unique_id@ + "/index.html"@,
{
    let st = state();
    let base = st.cf_url(unique_id);
    IndexLinks {
        status_url: concat2(base.as_str(), "/index.html"),
        server_prefix: concat2(base.as_str(), "/server-step-"),
        client_prefix: concat2(base.as_str(), "/client-step-"),
        finished_prefix: concat2(base.as_str(), "/finished-step-"),
        index_key: concat2(unique_id, "/index.html"),
    }
}

/// The run's index page made from `template`: the placeholders for the
/// run's id and for the address prefixes of the server, client and final
/// steps replaced, in that order; see `index_links`.
pub open spec fn index_page(template: Seq<char>, unique_id: Seq<char>) -> Seq<char> {
    let base = state().cloudfront_url@ + "/"@ + unique_id;
    replace_spec(
        replace_spec(
            replace_spec(
                replace_spec(template, "template_unique_id"@, unique_id),
                "template_server_prefix"@,
                base + "/server-step-"@,
            ),
            "template_client_prefix"@,
            base + "/client-step-"@,
        ),
        "template_finished_prefix"@,
        base + "/finished-step-"@,
    )
}

/// The run's index page; see `index_page`.
pub fn index_html(template: &str, unique_id: &str) -> (r: String)
    ensures
        r@ == index_page(template@, unique_id@),
{
    proof {
        reveal_strlit("template_unique_id");
        reveal_strlit("template_server_prefix");
        reveal_strlit("template_client_prefix");
        reveal_strlit("template_finished_prefix");
    }
    let links = index_links(unique_id);
    let a = replace_all(template, "template_unique_id", unique_id);
    let b = replace_all(a.as_str(), "template_server_prefix", links.server_prefix.as_str());
    let c = replace_all(b.as_str(), "template_client_prefix", links.client_prefix.as_str());
    replace_all(c.as_str(), "template_finished_prefix", links.finished_prefix.as_str())
}

/// Each host's address and id, as `IP ID`, one after the other with
/// nothing between.
pub open spec fn hosts_ip_id(hosts: Seq<InstanceDetail>) -> Seq<char> {
    concat_all(hosts.map_values(|h: InstanceDetail| h.ip@ + " "@ + h.instance_id@))
}

/// The message that the hosts of a role are up: their role, quoted, and
/// each host's address and id.
pub open spec fn hosts_up_message(hosts: Seq<InstanceDetail>) -> Seq<char> {
    "EC2 \""@ + hosts[0].endpoint_type.spec_as_str() + "\" instances up: "@ + hosts_ip_id(hosts)
}

/// The message that the hosts of a role are up; see `hosts_up_message`.
/// The list must not be empty.
pub fn instances_up_message(instances: &Vec<InstanceDetail>) -> (r: String)
    requires
        instances@.len() > 0,
    ensures
        r@ == hosts_up_message(instances@),
{
    let mut ids = String::new();
    let mut i: usize = 0;
    let ghost parts = instances@.map_values(|h: InstanceDetail| h.ip@ + " "@ + h.instance_id@);
    while i < instances.len()
        invariant
            i <= instances@.len(),
            parts == instances@.map_values(|h: InstanceDetail| h.ip@ + " "@ + h.instance_id@),
            ids@ == concat_all(parts.subrange(0, i as int)),
        decreases instances@.len() - i,
    {
        let ghost before = ids@;
        ids.append(instances[i].ip.as_str());
        ids.append(" ");
        ids.append(instances[i].instance_id.as_str());
        assert(parts.subrange(0, i + 1).drop_last() =~= parts.subrange(0, i as int));
        assert(ids@ =~= before + parts[i as int]);
        i = i + 1;
    }
    assert(parts.subrange(0, instances@.len() as int) =~= parts);
    let mut msg = String::from_str("EC2 \"");
    msg.append(instances[0].endpoint_type.as_str());
    msg.append("\" instances up: ");
    msg.append(ids.as_str());
    msg
}

/// The key of a role's first dashboard step for a run:
/// `ID/ROLE-step-0`, with the role lower-cased.
pub fn host_step_key(unique_id: &str, endpoint_type: &EndpointType) -> (r: String)
    ensures
        r@ == unique_id@ + "/"@ + ascii_lowercase(endpoint_type.spec_as_str()) + "-step-0"@,
{
    proof {
        reveal_strlit("Server");
        reveal_strlit("Client");
    }
    let kind = str_to_lowercase(endpoint_type.as_str());
    let mut s = concat3(unique_id, "/", kind.as_str());
    s.append("-step-0");
    s
}

} // verus!
