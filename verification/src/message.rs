//! Deterministic composition of the notification text.

use vstd::prelude::*;
use vstd::string::StringExecFns;

use crate::event::PipelineStatus;
use crate::jobs::{job_views, JobRecord, JobView};
use crate::merge_request::{MergeRequestDetail, MergeRequestView};

verus! {

/// The label the notification prints for a status, spelled as the platform
/// names its states.
pub open spec fn status_text(s: PipelineStatus) -> Seq<char> {
    match s {
        PipelineStatus::Created => "Created"@,
        PipelineStatus::WaitingForResource => "WaitingForResource"@,
        PipelineStatus::Preparing => "Preparing"@,
        PipelineStatus::Pending => "Pending"@,
        PipelineStatus::Running => "Running"@,
        PipelineStatus::Success => "Success"@,
        PipelineStatus::Failed => "Failed"@,
        PipelineStatus::Canceled => "Canceled"@,
        PipelineStatus::Skipped => "Skipped"@,
        PipelineStatus::Manual => "Manual"@,
        PipelineStatus::Scheduled => "Scheduled"@,
    }
}

/// The printable label of a status.
pub fn status_label(s: PipelineStatus) -> (label: &'static str)
    ensures
        label@ == status_text(s),
{
    match s {
        PipelineStatus::Created => "Created",
        PipelineStatus::WaitingForResource => "WaitingForResource",
        PipelineStatus::Preparing => "Preparing",
        PipelineStatus::Pending => "Pending",
        PipelineStatus::Running => "Running",
        PipelineStatus::Success => "Success",
        PipelineStatus::Failed => "Failed",
        PipelineStatus::Canceled => "Canceled",
        PipelineStatus::Skipped => "Skipped",
        PipelineStatus::Manual => "Manual",
        PipelineStatus::Scheduled => "Scheduled",
    }
}

/// First line: the merge request the failure belongs to, as a link.
pub open spec fn header_line(mr: MergeRequestView) -> Seq<char> {
    "Failed MR: <"@ + mr.url + "|"@ + mr.title + ">\n"@
}

/// Second line: the author's mention.
pub open spec fn author_line(mention: Seq<char>) -> Seq<char> {
    "Author: <@"@ + mention + ">\n"@
}

/// Optional line: who merged the request, when anyone did.
pub open spec fn merger_line(mention: Seq<char>) -> Seq<char> {
    "Merged by: <@"@ + mention + ">\n"@
}

/// One line per job: a link to the job and its status label.
pub open spec fn job_line(j: JobView) -> Seq<char> {
    "- <"@ + j.url + "|"@ + j.name + "> "@ + status_text(j.status) + "\n"@
}

/// The job lines, in the order of the list.
pub open spec fn job_lines(jobs: Seq<JobView>) -> Seq<char>
    decreases jobs.len(),
{
    if jobs.len() == 0 {
        Seq::empty()
    } else {
        job_lines(jobs.drop_last()) + job_line(jobs.last())
    }
}

/// Everything above the per-job lines: header, author mention, merger
/// mention when there is a merger, and the job-section heading.
pub open spec fn message_prefix(
    mr: MergeRequestView,
    author: Seq<char>,
    merger: Option<Seq<char>>,
) -> Seq<char> {
    header_line(mr) + author_line(author) + (match merger {
        Some(m) => merger_line(m),
        None => Seq::<char>::empty(),
    }) + "Failed jobs\n"@
}

/// The full notification text.
pub open spec fn message_text(
    mr: MergeRequestView,
    author: Seq<char>,
    merger: Option<Seq<char>>,
    jobs: Seq<JobView>,
) -> Seq<char> {
    message_prefix(mr, author, merger) + job_lines(jobs)
}

/// Composes the notification: the failed-MR header, the author mention, the
/// merger mention when the request was ever merged, the job-section heading,
/// then one line per given job, in the given order.
pub fn compose_message(
    mr: &MergeRequestDetail,
    author_mention: &String,
    merger_mention: &Option<String>,
    jobs: &Vec<JobRecord>,
) -> (text: String)
    ensures
        text@ == message_text(
            mr@,
            author_mention@,
            merger_mention.deep_view(),
            job_views(jobs@),
        ),
{
    let ghost merger_view = merger_mention.deep_view();
    let mut text = String::new();
    text.append("Failed MR: <");
    text.append(mr.web_url.as_str());
    text.append("|");
    text.append(mr.title.as_str());
    text.append(">\n");
    text.append("Author: <@");
    text.append(author_mention.as_str());
    text.append(">\n");
    match merger_mention {
        Some(m) => {
            text.append("Merged by: <@");
            text.append(m.as_str());
            text.append(">\n");
        },
        None => {},
    }
    text.append("Failed jobs\n");
    proof {
        assert(text@ =~= message_prefix(mr@, author_mention@, merger_view));
    }
    let ghost views = job_views(jobs@);
    let mut i: usize = 0;
    proof {
        assert(views.take(0) =~= Seq::<JobView>::empty());
    }
    while i < jobs.len()
        invariant
            i <= jobs.len(),
            views == job_views(jobs@),
            merger_view == merger_mention.deep_view(),
            text@ == message_prefix(mr@, author_mention@, merger_view) + job_lines(
                views.take(i as int),
            ),
        decreases jobs.len() - i,
    {
        let j = &jobs[i];
        let ghost before = text@;
        text.append("- <");
        text.append(j.web_url.as_str());
        text.append("|");
        text.append(j.name.as_str());
        text.append("> ");
        text.append(status_label(j.status));
        text.append("\n");
        proof {
            assert(text@ =~= before + job_line(views[i as int]));
            assert(views.take(i + 1).drop_last() =~= views.take(i as int));
            assert(views.take(i + 1).last() == views[i as int]);
            assert(job_lines(views.take(i + 1)) == job_lines(views.take(i as int)) + job_line(
                views[i as int],
            ));
            assert(text@ =~= message_prefix(mr@, author_mention@, merger_view) + job_lines(
                views.take(i + 1),
            ));
        }
        i += 1;
    }
    proof {
        assert(views.take(jobs@.len() as int) =~= views);
    }
    text
}

/// Composition is deterministic: the text is a function of the detail, the
/// two mentions and the job list alone, so equal inputs give byte-identical
/// text.
pub proof fn lemma_composition_deterministic(
    mr1: MergeRequestView,
    author1: Seq<char>,
    merger1: Option<Seq<char>>,
    jobs1: Seq<JobView>,
    mr2: MergeRequestView,
    author2: Seq<char>,
    merger2: Option<Seq<char>>,
    jobs2: Seq<JobView>,
)
    requires
        mr1 == mr2,
        author1 == author2,
        merger1 == merger2,
        jobs1 == jobs2,
    ensures
        message_text(mr1, author1, merger1, jobs1) == message_text(mr2, author2, merger2, jobs2),
{
}

} // verus!
