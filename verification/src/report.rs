//! The run's final report: the commands that gather the results and build
//! the report, and the link published to it.

use crate::state::state;
use crate::text::{concat2, concat3, owned, strings_view};
use vstd::prelude::*;
use vstd::string::*;

verus! {

/// The arguments of the `aws` command that copies a run's results to the
/// local workspace.
pub fn sync_results_args(unique_id: &str) -> (r: Vec<String>)
    ensures
        strings_view(r@) == seq![
            "s3"@,
            "sync"@,
            "s3://"@ + state().s3_log_bucket@ + "/"@ + unique_id@,
            state().workspace_dir@,
        ],
{
    let st = state();
    let mut v: Vec<String> = Vec::new();
    v.push(owned("s3"));
    v.push(owned("sync"));
    v.push(st.s3_path(unique_id));
    v.push(owned(st.workspace_dir));
    assert(strings_view(v@) =~= seq![
        "s3"@,
        "sync"@,
        "s3://"@ + state().s3_log_bucket@ + "/"@ + unique_id@,
        state().workspace_dir@,
    ]);
    v
}

/// The arguments of the `s2n-netbench` command that builds the report
/// from the workspace's results.
pub fn report_tree_args() -> (r: Vec<String>)
    ensures
        strings_view(r@) == seq![
            "report-tree"@,
            state().workspace_dir@ + "/results"@,
            state().workspace_dir@ + "/report"@,
        ],
{
    let st = state();
    let mut v: Vec<String> = Vec::new();
    v.push(owned("report-tree"));
    v.push(concat2(st.workspace_dir, "/results"));
    v.push(concat2(st.workspace_dir, "/report"));
    assert(strings_view(v@) =~= seq![
        "report-tree"@,
        state().workspace_dir@ + "/results"@,
        state().workspace_dir@ + "/report"@,
    ]);
    v
}

/// The arguments of the `aws` command that copies the workspace, report
/// included, back to the run's results.
pub fn sync_report_args(unique_id: &str) -> (r: Vec<String>)
    ensures
        strings_view(r@) == seq![
            "s3"@,
            "sync"@,
            state().workspace_dir@,
            "s3://"@ + state().s3_log_bucket@ + "/"@ + unique_id@,
        ],
{
    let st = state();
    let mut v: Vec<String> = Vec::new();
    v.push(owned("s3"));
    v.push(owned("sync"));
    v.push(owned(st.workspace_dir));
    v.push(st.s3_path(unique_id));
    assert(strings_view(v@) =~= seq![
        "s3"@,
        "sync"@,
        state().workspace_dir@,
        "s3://"@ + state().s3_log_bucket@ + "/"@ + unique_id@,
    ]);
    v
}

/// The public address of a run's report.
pub fn report_url(unique_id: &str) -> (r: String)
    ensures
        r@ == state().cloudfront_url@ + "/"@ + unique_id@ + "/report/index.html"@,
{
    concat2(state().cf_url(unique_id).as_str(), "/report/index.html")
}

/// The dashboard's final step: a link to the report.
pub fn report_link_html(unique_id: &str) -> (r: String)
    ensures
        r@ == "<a href=\""@ + state().cloudfront_url@ + "/"@ + unique_id@
            + "/report/index.html\">Final Report</a>"@,
{
    concat3("<a href=\"", state().cf_url(unique_id).as_str(), "/report/index.html\">Final Report</a>")
}

/// The key the dashboard's final step is stored under: `ID/finished-step-0`.
pub fn report_key(unique_id: &str) -> (r: String)
    ensures
        r@ == unique_id@ + "/finished-step-0"@,
{
    concat2(unique_id, "/finished-step-0")
}

} // verus!
