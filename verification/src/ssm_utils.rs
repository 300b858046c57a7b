//! Commands sent to the hosts through SSM: the steps of a host's setup,
//! how each step's commands are wrapped so that steps wait for each other,
//! and how the status of a sent command is judged.

pub mod client;
pub mod common;
pub mod netbench_driver;
pub mod server;

use crate::error::{OrchError, OrchResult};
use crate::russula::protocol::PollStatus;
use crate::text::{owned, strings_view};
use vstd::prelude::*;
use vstd::string::*;

verus! {

/// The steps of a host's setup and run. Each step leaves marker files in
/// the host's home directory when it starts and when it finishes.
#[derive(Clone, Copy, Debug, PartialEq, Eq, Structural)]
pub enum Step {
    Configure,
    BuildDriver,
    BuildRussula,
    BuildNetbench,
    RunRussula,
    RunNetbench,
    UploadNetbenchRawData,
}

impl Step {
    /// The step's name, used in its marker files.
    pub open spec fn spec_as_str(self) -> Seq<char> {
        match self {
            Step::Configure => "configure"@,
            Step::BuildDriver => "build_driver"@,
            Step::BuildRussula => "build_russula"@,
            Step::BuildNetbench => "build_netbench"@,
            Step::RunRussula => "run_russula"@,
            Step::RunNetbench => "run_netbench"@,
            Step::UploadNetbenchRawData => "upload_netbench_raw_data"@,
        }
    }

    /// The step's name, used in its marker files.
    pub fn as_str(&self) -> (r: &'static str)
        ensures
            r@ == self.spec_as_str(),
    {
        match self {
            Step::Configure => "configure",
            Step::BuildDriver => "build_driver",
            Step::BuildRussula => "build_russula",
            Step::BuildNetbench => "build_netbench",
            Step::RunRussula => "run_russula",
            Step::RunNetbench => "run_netbench",
            Step::UploadNetbenchRawData => "upload_netbench_raw_data",
        }
    }
}

/// The command that waits until `step` has finished on the host.
pub open spec fn wait_for_step_cmd(step: Step) -> Seq<char> {
    "cd /home/ec2-user; until [ -f "@ + step.spec_as_str() + "_fin___ ]; do sleep 5; done"@
}

/// The command that marks `step` as started.
pub open spec fn step_started_cmd(step: Step) -> Seq<char> {
    "cd /home/ec2-user; touch "@ + step.spec_as_str() + "_start___"@
}

/// The command that marks `step` as finished.
pub open spec fn step_finished_cmd(step: Step) -> Seq<char> {
    "touch "@ + step.spec_as_str() + "_fin___"@
}

/// The commands that wait for each of `steps`, in order.
pub open spec fn wait_for_steps_cmds(steps: Seq<Step>) -> Seq<Seq<char>> {
    steps.map_values(|s: Step| wait_for_step_cmd(s))
}

/// What is sent to the hosts for one step: wait for each earlier step,
/// mark the step as started, run its commands, and mark it as finished.
pub open spec fn assembled_cmds(wait_steps: Seq<Step>, step: Step, commands: Seq<Seq<char>>) -> Seq<
    Seq<char>,
> {
    wait_for_steps_cmds(wait_steps) + seq![step_started_cmd(step)] + commands + seq![
        "cd /home/ec2-user"@,
        step_finished_cmd(step),
    ]
}

/// The layout of a step's command list: one wait per earlier step, in the
/// given order; then the start marker; then the step's own commands,
/// unchanged and in their order; then the return home and the finish
/// marker.
pub proof fn lemma_assembled_layout(wait_steps: Seq<Step>, step: Step, commands: Seq<Seq<char>>)
    ensures
        assembled_cmds(wait_steps, step, commands).len() == wait_steps.len() + commands.len() + 3,
        forall|i: int|
            0 <= i < wait_steps.len() ==> #[trigger] assembled_cmds(wait_steps, step, commands)[i]
                == wait_for_step_cmd(wait_steps[i]),
        assembled_cmds(wait_steps, step, commands)[wait_steps.len() as int] == step_started_cmd(step),
        assembled_cmds(wait_steps, step, commands).subrange(
            wait_steps.len() + 1int,
            wait_steps.len() + 1int + commands.len(),
        ) == commands,
        assembled_cmds(wait_steps, step, commands)[wait_steps.len() + commands.len() + 1int]
            == "cd /home/ec2-user"@,
        assembled_cmds(wait_steps, step, commands)[wait_steps.len() + commands.len() + 2int]
            == step_finished_cmd(step),
{
    let a = assembled_cmds(wait_steps, step, commands);
    let w = wait_steps.len() as int;
    let c = commands.len() as int;
    assert(a.subrange(w + 1, w + 1 + c) =~= commands);
}

/// The full command list for one step; see `assembled_cmds`: the step's
/// own commands stand unchanged and in order right after the waits and the
/// start marker.
pub fn assemble_command(wait_steps: &Vec<Step>, step: Step, commands: Vec<String>) -> (r: Vec<String>)
    ensures
        strings_view(r@) == assembled_cmds(wait_steps@, step, strings_view(commands@)),
        r@.len() == wait_steps@.len() + commands@.len() + 3,
        strings_view(r@).subrange(
            wait_steps@.len() + 1int,
            wait_steps@.len() + 1int + commands@.len(),
        ) == strings_view(commands@),
{
    proof {
        lemma_assembled_layout(wait_steps@, step, strings_view(commands@));
    }
    let mut out: Vec<String> = Vec::new();
    let mut i: usize = 0;
    while i < wait_steps.len()
        invariant
            i <= wait_steps@.len(),
            strings_view(out@) == wait_for_steps_cmds(wait_steps@.subrange(0, i as int)),
        decreases wait_steps@.len() - i,
    {
        let ghost prev = out@;
        let mut line = String::from_str("cd /home/ec2-user; until [ -f ");
        line.append(wait_steps[i].as_str());
        line.append("_fin___ ]; do sleep 5; done");
        out.push(line);
        assert(wait_steps@.subrange(0, i + 1) =~= wait_steps@.subrange(0, i as int).push(
            wait_steps@[i as int],
        ));
        assert(strings_view(out@) =~= strings_view(prev).push(wait_for_step_cmd(wait_steps@[i as int])));
        i = i + 1;
    }
    assert(wait_steps@.subrange(0, wait_steps@.len() as int) =~= wait_steps@);
    let ghost waits = out@;
    let mut start = String::from_str("cd /home/ec2-user; touch ");
    start.append(step.as_str());
    start.append("_start___");
    out.push(start);
    let ghost with_start = out@;
    let mut cmds = commands;
    let ghost cmds_view = cmds@;
    out.append(&mut cmds);
    let ghost with_cmds = out@;
    out.push(owned("cd /home/ec2-user"));
    let mut fin = String::from_str("touch ");
    fin.append(step.as_str());
    fin.append("_fin___");
    out.push(fin);
    assert(with_cmds == with_start + cmds_view);
    assert(strings_view(out@) =~= assembled_cmds(wait_steps@, step, strings_view(commands@)));
    out
}

/// A command to send to a group of hosts through SSM: the earlier steps it
/// waits for, its own step, the host group it goes to, its comment, and its
/// commands (before `assemble_command` wraps them).
#[derive(Clone, Debug)]
pub struct SsmCommand {
    pub wait_steps: Vec<Step>,
    pub step: Step,
    pub endpoint: String,
    pub comment: String,
    pub commands: Vec<String>,
}

/// Whether `c` has the given parts.
pub open spec fn is_ssm_command(
    c: SsmCommand,
    wait_steps: Seq<Step>,
    step: Step,
    endpoint: Seq<char>,
    comment: Seq<char>,
    commands: Seq<Seq<char>>,
) -> bool {
    &&& c.wait_steps@ == wait_steps
    &&& c.step == step
    &&& c.endpoint@ == endpoint
    &&& c.comment@ == comment
    &&& strings_view(c.commands@) == commands
}

impl SsmCommand {
    /// The commands as they are sent; see `assembled_cmds`.
    pub fn assembled(&self) -> (r: Vec<String>)
        ensures
            strings_view(r@) == assembled_cmds(self.wait_steps@, self.step, strings_view(self.commands@)),
    {
        assemble_command(&self.wait_steps, self.step, self.commands.clone())
    }
}

/// How many times a command is sent before giving up.
pub const SEND_COMMAND_ATTEMPTS: u32 = 30;

/// After a failed send with `remaining` retries left: retry with one fewer,
/// or give up when none is left.
pub fn retry_after_failed_send(remaining: u32) -> (r: Option<u32>)
    ensures
        r == (if remaining > 0 {
            Some((remaining - 1) as u32)
        } else {
            None::<u32>
        }),
{
    if remaining > 0 {
        Some(remaining - 1)
    } else {
        None
    }
}

/// The status SSM reports for a command on a host.
#[derive(Clone, Copy, Debug, PartialEq, Eq, Structural)]
pub enum CommandStatus {
    Cancelled,
    Cancelling,
    Delayed,
    Failed,
    InProgress,
    Pending,
    Success,
    TimedOut,
    /// A status this library does not know.
    Unknown,
}

/// What a command's status means for a poll: finished; still running; or
/// an `Ssm` error for a command that will not finish, or whose status is
/// unknown. A command with no reported status counts as finished.
pub open spec fn spec_classify_status(status: Option<CommandStatus>) -> Option<PollStatus> {
    match status {
        None => Some(PollStatus::Ready),
        Some(CommandStatus::Success) => Some(PollStatus::Ready),
        Some(CommandStatus::Delayed) => Some(PollStatus::Pending),
        Some(CommandStatus::InProgress) => Some(PollStatus::Pending),
        Some(CommandStatus::Pending) => Some(PollStatus::Pending),
        _ => None,
    }
}

/// Only a command that reports no status, or success, counts as finished;
/// only one that is delayed, in progress or pending counts as still
/// running; every other status (cancelled, cancelling, failed, timed out,
/// or one this library does not know) is an error, which ends the wait
/// with failure.
pub proof fn lemma_status_outcomes(status: Option<CommandStatus>)
    ensures
        (spec_classify_status(status) == Some(PollStatus::Ready)) <==> (status is None || status
            == Some(CommandStatus::Success)),
        (spec_classify_status(status) == Some(PollStatus::Pending)) <==> (status == Some(
            CommandStatus::Delayed,
        ) || status == Some(CommandStatus::InProgress) || status == Some(CommandStatus::Pending)),
        (spec_classify_status(status) is None) <==> (status == Some(CommandStatus::Cancelled)
            || status == Some(CommandStatus::Cancelling) || status == Some(CommandStatus::Failed)
            || status == Some(CommandStatus::TimedOut) || status == Some(CommandStatus::Unknown)),
{
}

/// Judges a command's status; see `spec_classify_status`.
pub fn classify_status(status: Option<CommandStatus>) -> (r: OrchResult<PollStatus>)
    ensures
        match spec_classify_status(status) {
            Some(p) => r == Ok::<PollStatus, OrchError>(p),
            None => r matches Err(OrchError::Ssm { dbg }) && dbg@ == (if status == Some(
                CommandStatus::Unknown,
            ) {
                "unhandled status"@
            } else {
                "timeout"@
            }),
        },
        (r == Ok::<PollStatus, OrchError>(PollStatus::Ready)) <==> (status is None || status == Some(
            CommandStatus::Success,
        )),
        (r == Ok::<PollStatus, OrchError>(PollStatus::Pending)) <==> (status == Some(
            CommandStatus::Delayed,
        ) || status == Some(CommandStatus::InProgress) || status == Some(CommandStatus::Pending)),
{
    proof {
        lemma_status_outcomes(status);
    }
    match status {
        None => Ok(PollStatus::Ready),
        Some(CommandStatus::Cancelled) | Some(CommandStatus::Cancelling) | Some(
            CommandStatus::Failed,
        ) | Some(CommandStatus::TimedOut) => Err(OrchError::Ssm { dbg: owned("timeout") }),
        Some(CommandStatus::Delayed) | Some(CommandStatus::InProgress) | Some(
            CommandStatus::Pending,
        ) => Ok(PollStatus::Pending),
        Some(CommandStatus::Success) => Ok(PollStatus::Ready),
        Some(CommandStatus::Unknown) => Err(OrchError::Ssm { dbg: owned("unhandled status") }),
    }
}

/// Whether waiting for a command's results is over, and how: a finished
/// command ends the wait with success, an error ends it with failure, and
/// a running command keeps it going.
pub fn wait_outcome(poll: &OrchResult<PollStatus>) -> (r: Option<bool>)
    ensures
        r == (match poll {
            Ok(PollStatus::Ready) => Some(true),
            Ok(PollStatus::Pending) => None::<bool>,
            Err(_) => Some(false),
        }),
{
    match poll {
        Ok(PollStatus::Ready) => Some(true),
        Ok(PollStatus::Pending) => None,
        Err(_) => Some(false),
    }
}

/// The number of finished polls.
pub open spec fn count_ready(polls: Seq<PollStatus>) -> nat
    decreases polls.len(),
{
    if polls.len() == 0 {
        0
    } else {
        count_ready(polls.drop_last()) + if polls.last() == PollStatus::Ready {
            1nat
        } else {
            0nat
        }
    }
}

/// The finished polls of two batches together are those of each.
pub proof fn lemma_count_ready_concat(a: Seq<PollStatus>, b: Seq<PollStatus>)
    ensures
        count_ready(a + b) == count_ready(a) + count_ready(b),
    decreases b.len(),
{
    if b.len() > 0 {
        lemma_count_ready_concat(a, b.drop_last());
        assert((a + b).drop_last() =~= a + b.drop_last());
        assert((a + b).last() == b.last());
    } else {
        assert(a + b =~= a);
    }
}

/// A single poll counts as finished exactly when it is `Ready`.
pub proof fn lemma_count_ready_single(p: PollStatus)
    ensures
        count_ready(seq![p]) == (if p == PollStatus::Ready {
            1nat
        } else {
            0nat
        }),
{
    reveal_with_fuel(count_ready, 2);
    assert(seq![p].drop_last() =~= Seq::<PollStatus>::empty());
    assert(seq![p].last() == p);
}

/// No more polls are finished than there are, and all of them are finished
/// exactly when each one is `Ready`.
pub proof fn lemma_count_ready_all(polls: Seq<PollStatus>)
    ensures
        count_ready(polls) <= polls.len(),
        (count_ready(polls) == polls.len()) <==> (forall|i: int|
            0 <= i < polls.len() ==> polls[i] == PollStatus::Ready),
    decreases polls.len(),
{
    if polls.len() > 0 {
        let init = polls.drop_last();
        lemma_count_ready_all(init);
        if count_ready(polls) == polls.len() {
            assert forall|i: int| 0 <= i < polls.len() implies polls[i] == PollStatus::Ready by {
                if i < polls.len() - 1 {
                    assert(init[i] == polls[i]);
                }
            }
        }
        if forall|i: int| 0 <= i < polls.len() ==> polls[i] == PollStatus::Ready {
            assert forall|i: int| 0 <= i < init.len() implies init[i] == PollStatus::Ready by {
                assert(init[i] == polls[i]);
            }
        }
    }
}

/// The number of finished commands among `polls`, and whether all of them
/// have finished.
pub fn completed_tasks(polls: &Vec<PollStatus>) -> (r: (u64, bool))
    ensures
        r.0 == count_ready(polls@),
        r.1 == (count_ready(polls@) == polls@.len()),
        r.1 <==> (forall|i: int| 0 <= i < polls@.len() ==> polls@[i] == PollStatus::Ready),
{
    proof {
        lemma_count_ready_all(polls@);
    }
    let mut n: u64 = 0;
    let mut i: usize = 0;
    while i < polls.len()
        invariant
            i <= polls@.len(),
            n == count_ready(polls@.subrange(0, i as int)),
            n <= i,
        decreases polls@.len() - i,
    {
        assert(polls@.subrange(0, i + 1).drop_last() =~= polls@.subrange(0, i as int));
        if polls[i] == PollStatus::Ready {
            n = n + 1;
        }
        i = i + 1;
    }
    assert(polls@.subrange(0, polls@.len() as int) =~= polls@);
    (n, n as usize == polls.len())
}

} // verus!
