//! Job records of a pipeline run and the filter that keeps the ones that
//! did not succeed.

use vstd::prelude::*;

use crate::event::PipelineStatus;

verus! {

broadcast use vstd::prelude::Seq::lemma_filter_push;

/// One job of a pipeline run, as the CI platform's job list reports it.
#[derive(Debug)]
pub struct JobRecord {
    pub name: String,
    pub status: PipelineStatus,
    pub web_url: String,
}

/// Mathematical model of a [`JobRecord`].
pub struct JobView {
    pub name: Seq<char>,
    pub status: PipelineStatus,
    pub url: Seq<char>,
}

impl View for JobRecord {
    type V = JobView;

    open spec fn view(&self) -> JobView {
        JobView { name: self.name@, status: self.status, url: self.web_url@ }
    }
}

impl Clone for JobRecord {
    fn clone(&self) -> (r: Self)
        ensures
            r@ == self@,
    {
        JobRecord { name: self.name.clone(), status: self.status, web_url: self.web_url.clone() }
    }
}

/// The models of a sequence of job records.
pub open spec fn job_views(jobs: Seq<JobRecord>) -> Seq<JobView> {
    jobs.map_values(|j: JobRecord| j@)
}

/// A job counts as failed for the notification whenever it did not succeed.
pub open spec fn is_failed_job(j: JobView) -> bool {
    j.status != PipelineStatus::Success
}

/// Exactly the jobs that did not succeed, in their original order.
pub open spec fn failed_jobs_of(jobs: Seq<JobView>) -> Seq<JobView> {
    jobs.filter(|j: JobView| is_failed_job(j))
}

/// Keeps exactly the jobs whose status is not `Success`, in the order the
/// platform returned them: no duplicate is added and none is dropped.
pub fn filter_failed_jobs(jobs: Vec<JobRecord>) -> (failed: Vec<JobRecord>)
    ensures
        job_views(failed@) == failed_jobs_of(job_views(jobs@)),
{
    let mut failed: Vec<JobRecord> = Vec::new();
    let mut i: usize = 0;
    proof {
        reveal(Seq::filter);
        assert(job_views(jobs@.take(0)) =~= Seq::<JobView>::empty());
        assert(job_views(failed@) =~= Seq::<JobView>::empty());
    }
    while i < jobs.len()
        invariant
            i <= jobs.len(),
            job_views(failed@) == failed_jobs_of(job_views(jobs@.take(i as int))),
        decreases jobs.len() - i,
    {
        let ghost prefix = job_views(jobs@.take(i as int));
        let ghost v = jobs@[i as int]@;
        proof {
            assert(job_views(jobs@.take(i + 1)) =~= prefix.push(v));
            assert(failed_jobs_of(prefix.push(v)) == if is_failed_job(v) {
                failed_jobs_of(prefix).push(v)
            } else {
                failed_jobs_of(prefix)
            });
        }
        if jobs[i].status != PipelineStatus::Success {
            let ghost prev = failed@;
            failed.push(jobs[i].clone());
            proof {
                assert(job_views(failed@) =~= job_views(prev).push(v));
            }
        }
        i += 1;
    }
    proof {
        assert(jobs@.take(jobs@.len() as int) =~= jobs@);
    }
    failed
}

/// The filter omits nothing and invents nothing: every job it keeps did not
/// succeed, and every job of the input that did not succeed is kept.
pub proof fn lemma_failed_jobs_exact(jobs: Seq<JobView>)
    ensures
        forall|i: int|
            0 <= i < failed_jobs_of(jobs).len() ==> is_failed_job(
                #[trigger] failed_jobs_of(jobs)[i],
            ),
        forall|i: int|
            0 <= i < jobs.len() && is_failed_job(#[trigger] jobs[i]) ==> failed_jobs_of(
                jobs,
            ).contains(jobs[i]),
{
    broadcast use vstd::prelude::Seq::lemma_filter_pred;
    broadcast use vstd::prelude::Seq::lemma_filter_contains;

}

} // verus!
