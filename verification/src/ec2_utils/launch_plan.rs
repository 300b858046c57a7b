//! What a run's hosts are launched with, and how the launch requests of a
//! group of hosts are combined.

use crate::cli::OrchestratorConfig;
use crate::ec2_utils::instance::EndpointType;
use crate::error::OrchError;
use vstd::prelude::*;

verus! {

/// The network a run's hosts are launched into.
#[derive(Clone, Debug)]
pub struct NetworkingInfraDetail {
    pub subnet_id: String,
    pub vpc_id: String,
}

/// Everything a run's hosts are launched with: the machine image, the
/// network, the instance profile, and the run's configuration.
#[derive(Clone, Debug)]
pub struct LaunchPlan<'a> {
    pub ami_id: String,
    pub networking_detail: NetworkingInfraDetail,
    pub instance_profile_arn: String,
    pub config: &'a OrchestratorConfig,
}

/// The outcome of a group of launch requests, in order: all their values
/// when every request succeeded, or else the error of the first that
/// failed.
pub open spec fn collect_spec<T>(rs: Seq<Result<T, OrchError>>) -> Result<Seq<T>, OrchError>
    decreases rs.len(),
{
    if rs.len() == 0 {
        Ok(Seq::empty())
    } else {
        match rs[0] {
            Err(e) => Err(e),
            Ok(x) => match collect_spec(rs.drop_first()) {
                Ok(xs) => Ok(seq![x] + xs),
                Err(e) => Err(e),
            },
        }
    }
}

/// Combining launch results succeeds exactly when every launch succeeded,
/// and then gives every launch's value, in order; when any launch failed it
/// gives the error of the first launch that failed.
pub proof fn lemma_collect_spec_laws<T>(rs: Seq<Result<T, OrchError>>)
    ensures
        (collect_spec(rs) is Ok) <==> (forall|i: int| 0 <= i < rs.len() ==> (#[trigger] rs[i]) is Ok),
        collect_spec(rs) matches Ok(xs) ==> xs.len() == rs.len() && forall|i: int|
            0 <= i < rs.len() ==> #[trigger] rs[i] == Ok::<T, OrchError>(xs[i]),
        collect_spec(rs) matches Err(e) ==> exists|i: int|
            0 <= i < rs.len() && #[trigger] rs[i] == Err::<T, OrchError>(e) && forall|j: int|
                0 <= j < i ==> (#[trigger] rs[j]) is Ok,
    decreases rs.len(),
{
    if rs.len() > 0 {
        let tail = rs.drop_first();
        lemma_collect_spec_laws(tail);
        assert forall|i: int| 0 < i < rs.len() implies rs[i] == tail[i - 1] by {}
        match rs[0] {
            Err(e) => {
                assert(rs[0] == Err::<T, OrchError>(e));
            },
            Ok(x) => {
                match collect_spec(tail) {
                    Ok(ys) => {
                        let xs = seq![x] + ys;
                        assert forall|i: int| 0 <= i < rs.len() implies #[trigger] rs[i] == Ok::<T, OrchError>(xs[i]) by {
                            if i > 0 {
                                assert(xs[i] == ys[i - 1]);
                                assert(rs[i] == tail[i - 1]);
                            }
                        }
                    },
                    Err(e) => {
                        let k = choose|k: int|
                            0 <= k < tail.len() && #[trigger] tail[k] == Err::<T, OrchError>(e) && forall|j: int|
                                0 <= j < k ==> (#[trigger] tail[j]) is Ok;
                        assert(rs[k + 1] == tail[k]);
                        assert forall|j: int| 0 <= j < k + 1 implies (#[trigger] rs[j]) is Ok by {
                            if j > 0 {
                                assert(rs[j] == tail[j - 1]);
                            }
                        }
                        assert(!(rs[k + 1] is Ok));
                    },
                }
            },
        }
    }
}

/// `r` with the values `xs` put in front when it is a success.
pub open spec fn prepend_ok<T>(xs: Seq<T>, r: Result<Seq<T>, OrchError>) -> Result<Seq<T>, OrchError> {
    match r {
        Ok(ys) => Ok(xs + ys),
        Err(e) => Err(e),
    }
}

/// Combines a group's launch requests; see `collect_spec`. On an error
/// the group's hosts launched so far are to be cleaned up.
pub fn collect_launch_results<T>(results: Vec<Result<T, OrchError>>) -> (r: Result<Vec<T>, OrchError>)
    ensures
        match collect_spec(results@) {
            Ok(xs) => r matches Ok(v) && v@ == xs,
            Err(e) => r matches Err(e2) && e2 == e,
        },
        (r is Ok) <==> (forall|i: int| 0 <= i < results@.len() ==> (#[trigger] results@[i]) is Ok),
        r matches Ok(v) ==> v@.len() == results@.len() && forall|i: int|
            0 <= i < results@.len() ==> #[trigger] results@[i] == Ok::<T, OrchError>(v@[i]),
        r matches Err(e) ==> exists|i: int|
            0 <= i < results@.len() && #[trigger] results@[i] == Err::<T, OrchError>(e) && forall|j: int|
                0 <= j < i ==> (#[trigger] results@[j]) is Ok,
{
    proof {
        lemma_collect_spec_laws(results@);
    }
    let mut rest = results;
    let mut out: Vec<T> = Vec::new();
    let ghost all = rest@;
    assert(out@ + Seq::<T>::empty() =~= out@);
    while rest.len() > 0
        invariant
            all == results@,
            collect_spec(all) == prepend_ok(out@, collect_spec(rest@)),
        decreases rest@.len(),
    {
        let ghost before = rest@;
        let first = rest.remove(0);
        assert(rest@ =~= before.drop_first());
        match first {
            Ok(x) => {
                let ghost prev = out@;
                out.push(x);
                proof {
                    match collect_spec(rest@) {
                        Ok(ys) => {
                            assert(prev + (seq![x] + ys) =~= out@ + ys);
                        },
                        Err(_) => {},
                    }
                }
            },
            Err(e) => {
                assert(collect_spec(before) == Err::<Seq<T>, OrchError>(e));
                proof {
                    lemma_collect_spec_laws(all);
                }
                return Err(e);
            },
        }
    }
    assert(out@ + Seq::<T>::empty() =~= out@);
    Ok(out)
}

/// The groups of hosts a run launches, in the order they are launched: the
/// servers first, then the clients, each with its number of hosts.
pub fn launch_order(c: &OrchestratorConfig) -> (r: Vec<(EndpointType, usize)>)
    ensures
        r@ == seq![(EndpointType::Server, c.servers), (EndpointType::Client, c.clients)],
{
    let mut r: Vec<(EndpointType, usize)> = Vec::new();
    r.push((EndpointType::Server, c.servers));
    r.push((EndpointType::Client, c.clients));
    assert(r@ =~= seq![(EndpointType::Server, c.servers), (EndpointType::Client, c.clients)]);
    r
}

/// What follows the launch of one group of hosts.
pub enum GroupStep<T> {
    /// Every launch succeeded: go on with these hosts, in launch order.
    Proceed(Vec<T>),
    /// A launch failed: clean up what was launched so far, as best effort,
    /// and fail with this error, the first launch error of the group.
    CleanupThenFail(OrchError),
}

/// Decides what follows the launch of a group from its launch results; see
/// `collect_spec`.
pub fn after_group_launch<T>(rs: Vec<Result<T, OrchError>>) -> (r: GroupStep<T>)
    ensures
        match collect_spec(rs@) {
            Ok(xs) => r matches GroupStep::Proceed(v) && v@ == xs,
            Err(e) => r == GroupStep::<T>::CleanupThenFail(e),
        },
        (r is Proceed) <==> (forall|i: int| 0 <= i < rs@.len() ==> (#[trigger] rs@[i]) is Ok),
        r matches GroupStep::Proceed(v) ==> v@.len() == rs@.len() && forall|i: int|
            0 <= i < rs@.len() ==> #[trigger] rs@[i] == Ok::<T, OrchError>(v@[i]),
        r matches GroupStep::CleanupThenFail(e) ==> exists|i: int|
            0 <= i < rs@.len() && #[trigger] rs@[i] == Err::<T, OrchError>(e) && forall|j: int|
                0 <= j < i ==> (#[trigger] rs@[j]) is Ok,
{
    proof {
        lemma_collect_spec_laws(rs@);
    }
    match collect_launch_results(rs) {
        Ok(v) => GroupStep::Proceed(v),
        Err(e) => GroupStep::CleanupThenFail(e),
    }
}

} // verus!
