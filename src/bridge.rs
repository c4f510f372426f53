use vstd::prelude::*;
use vstd::string::*;
use crate::text::{decimal, join_with, u32_text};

verus! {

/// A job as callers see it: one implementation, single or grouped, behind
/// the same three operations.
pub struct Job {
    implementation: JobImpl,
}

/// Lifecycle state of a job. `run` and `stop` only ever produce `Running`
/// and `Stopped`; `Failed` and `Completed` are kept for further transitions.
#[derive(Debug, Clone, Copy, PartialEq, Eq, Structural)]
pub enum JobStatus {
    Pending,
    Running,
    Stopped,
    Failed,
    Completed,
}

/// A single job with an identifier and a status.
pub struct SingleJob {
    id: u32,
    status: JobStatus,
}

/// A job made of an ordered list of sub-jobs, with a status of its own.
pub struct MultipleJob {
    jobs: Vec<JobImpl>,
    status: JobStatus,
}

/// The implementation behind a job: a single job or a group of jobs.
pub enum JobImpl {
    Single(SingleJob),
    Multiple(MultipleJob),
}

/// The status that `run` (when `starting`) or `stop` leaves behind.
pub open spec fn target(starting: bool) -> JobStatus {
    if starting {
        JobStatus::Running
    } else {
        JobStatus::Stopped
    }
}

/// The line that a single job reports.
pub open spec fn single_line(id: u32, starting: bool) -> Seq<char> {
    if starting {
        "Running single job "@ + decimal(id as nat)
    } else {
        "Stopping single job "@ + decimal(id as nat)
    }
}

/// The first line of a group's report, with its line break.
pub open spec fn group_header(starting: bool) -> Seq<char> {
    if starting {
        "Running multiple jobs:\n"@
    } else {
        "Stopping multiple jobs:\n"@
    }
}

/// The report of a job tree: a single job's line, or a group's header
/// followed by its children's reports, one per line, in order.
pub closed spec fn job_text(j: JobImpl, starting: bool) -> Seq<char>
    decreases j,
{
    match j {
        JobImpl::Single(s) => single_line(s.id, starting),
        JobImpl::Multiple(m) => group_header(starting) + join_with(
            texts(m.jobs@, starting),
            "\n"@,
        ),
    }
}

/// The reports of a sequence of jobs, one entry per job.
pub closed spec fn texts(s: Seq<JobImpl>, starting: bool) -> Seq<Seq<char>>
    decreases s,
{
    if s.len() == 0 {
        Seq::empty()
    } else {
        texts(s.subrange(0, s.len() - 1), starting).push(job_text(s[s.len() - 1], starting))
    }
}

/// The own status of a job tree's root.
pub open spec fn status_of(j: JobImpl) -> JobStatus {
    match j {
        JobImpl::Single(s) => s.spec_status(),
        JobImpl::Multiple(m) => m.spec_status(),
    }
}

/// `after` has the shape and identifiers of `before`, and every node of it,
/// groups included, has status `st`.
pub closed spec fn settled(before: JobImpl, after: JobImpl, st: JobStatus) -> bool
    decreases before,
{
    match before {
        JobImpl::Single(b) => match after {
            JobImpl::Single(a) => a.id == b.id && a.status == st,
            JobImpl::Multiple(_) => false,
        },
        JobImpl::Multiple(b) => match after {
            JobImpl::Single(_) => false,
            JobImpl::Multiple(a) => a.status == st && all_settled(b.jobs@, a.jobs@, st),
        },
    }
}

/// `settled` position by position over two sequences of the same length.
pub closed spec fn all_settled(before: Seq<JobImpl>, after: Seq<JobImpl>, st: JobStatus) -> bool
    decreases before,
{
    before.len() == after.len() && (before.len() > 0 ==> (all_settled(
        before.subrange(0, before.len() - 1),
        after.subrange(0, after.len() - 1),
        st,
    ) && settled(before[before.len() - 1], after[after.len() - 1], st)))
}

/// Every single job reachable from `j` has status `st`.
pub closed spec fn leaves_have(j: JobImpl, st: JobStatus) -> bool
    decreases j,
{
    match j {
        JobImpl::Single(s) => s.status == st,
        JobImpl::Multiple(m) => all_leaves_have(m.jobs@, st),
    }
}

/// `leaves_have` for every job of a sequence.
pub closed spec fn all_leaves_have(s: Seq<JobImpl>, st: JobStatus) -> bool
    decreases s,
{
    s.len() > 0 ==> (all_leaves_have(s.subrange(0, s.len() - 1), st) && leaves_have(
        s[s.len() - 1],
        st,
    ))
}

proof fn lemma_texts_index(s: Seq<JobImpl>, starting: bool)
    ensures
        texts(s, starting).len() == s.len(),
        forall|k: int| 0 <= k < s.len() ==> #[trigger] texts(s, starting)[k] == job_text(s[k], starting),
    decreases s.len(),
{
    if s.len() > 0 {
        let p = s.subrange(0, s.len() - 1);
        lemma_texts_index(p, starting);
        assert forall|k: int| 0 <= k < s.len() implies #[trigger] texts(s, starting)[k] == job_text(s[k], starting) by {
            if k < s.len() - 1 {
                assert(p[k] == s[k]);
            }
        }
    }
}

proof fn lemma_all_settled_from_each(before: Seq<JobImpl>, after: Seq<JobImpl>, st: JobStatus)
    requires
        before.len() == after.len(),
        forall|k: int| 0 <= k < before.len() ==> settled(#[trigger] before[k], after[k], st),
    ensures
        all_settled(before, after, st),
    decreases before.len(),
{
    if before.len() > 0 {
        let n = before.len() - 1;
        let (b, a) = (before.subrange(0, n), after.subrange(0, n));
        assert forall|k: int| 0 <= k < b.len() implies settled(#[trigger] b[k], a[k], st) by {
            assert(b[k] == before[k] && a[k] == after[k]);
        }
        lemma_all_settled_from_each(b, a, st);
    }
}


/// After a sequence of jobs has been run (or stopped) one by one, every
/// single job reachable from any of them carries the new status.
pub proof fn lemma_all_settled_reaches_leaves(before: Seq<JobImpl>, after: Seq<JobImpl>, st: JobStatus)
    requires
        all_settled(before, after, st),
    ensures
        all_leaves_have(after, st),
    decreases before,
{
    if before.len() > 0 {
        let n = before.len() - 1;
        lemma_all_settled_reaches_leaves(before.subrange(0, n), after.subrange(0, n), st);
        lemma_settled_reaches_leaves(before[n], after[n], st);
    }
}

/// After a tree has been run (or stopped), its root and every single job
/// below it, at any depth, carry the new status.
pub proof fn lemma_settled_reaches_leaves(before: JobImpl, after: JobImpl, st: JobStatus)
    requires
        settled(before, after, st),
    ensures
        status_of(after) == st,
        leaves_have(after, st),
    decreases before,
{
    match before {
        JobImpl::Single(_) => {},
        JobImpl::Multiple(b) => {
            match after {
                JobImpl::Single(_) => {},
                JobImpl::Multiple(a) => {
                    lemma_all_settled_reaches_leaves(b.jobs@, a.jobs@, st);
                },
            }
        },
    }
}

proof fn lemma_all_settled_keeps_texts(
    before: Seq<JobImpl>,
    after: Seq<JobImpl>,
    st: JobStatus,
    starting: bool,
)
    requires
        all_settled(before, after, st),
    ensures
        texts(after, starting) == texts(before, starting),
    decreases before,
{
    if before.len() > 0 {
        let n = before.len() - 1;
        lemma_all_settled_keeps_texts(before.subrange(0, n), after.subrange(0, n), st, starting);
        lemma_settled_keeps_text(before[n], after[n], st, starting);
    }
}

/// Running or stopping a tree changes statuses only: a later run or stop
/// reports the same text as it would have on the untouched tree.
pub proof fn lemma_settled_keeps_text(before: JobImpl, after: JobImpl, st: JobStatus, starting: bool)
    requires
        settled(before, after, st),
    ensures
        job_text(after, starting) == job_text(before, starting),
    decreases before,
{
    match before {
        JobImpl::Single(_) => {},
        JobImpl::Multiple(b) => {
            match after {
                JobImpl::Single(_) => {},
                JobImpl::Multiple(a) => {
                    lemma_all_settled_keeps_texts(b.jobs@, a.jobs@, st, starting);
                },
            }
        },
    }
}

/// A single job's report is its own line.
pub proof fn lemma_single_report(s: SingleJob, starting: bool)
    ensures
        job_text(JobImpl::Single(s), starting) == single_line(s.spec_id(), starting),
{
}

/// A group's report is its header followed by the reports of its children,
/// in insertion order, joined by line breaks.
pub proof fn lemma_group_report(m: MultipleJob, starting: bool)
    ensures
        job_text(JobImpl::Multiple(m), starting) == group_header(starting) + join_with(
            Seq::new(m.spec_jobs().len(), |k: int| job_text(m.spec_jobs()[k], starting)),
            "\n"@,
        ),
{
    lemma_texts_index(m.jobs@, starting);
    assert(texts(m.jobs@, starting) =~= Seq::new(
        m.jobs@.len(),
        |k: int| job_text(m.jobs@[k], starting),
    ));
}

impl SingleJob {
    pub closed spec fn spec_id(&self) -> u32 {
        self.id
    }

    pub closed spec fn spec_status(&self) -> JobStatus {
        self.status
    }

    pub fn new(id: u32) -> (r: SingleJob)
        ensures
            r.spec_id() == id,
            r.spec_status() == JobStatus::Pending,
    {
        SingleJob { id, status: JobStatus::Pending }
    }

    fn apply(&mut self, starting: bool) -> (r: String)
        ensures
            final(self).id == old(self).id,
            final(self).status == target(starting),
            r@ == single_line(old(self).id, starting),
    {
        let digits = u32_text(self.id);
        if starting {
            self.status = JobStatus::Running;
            String::from_str("Running single job ").concat(digits.as_str())
        } else {
            self.status = JobStatus::Stopped;
            String::from_str("Stopping single job ").concat(digits.as_str())
        }
    }

    /// Marks the job running and reports it.
    pub fn run(&mut self) -> (r: String)
        ensures
            final(self).spec_id() == old(self).spec_id(),
            final(self).spec_status() == JobStatus::Running,
            r@ == single_line(old(self).spec_id(), true),
    {
        self.apply(true)
    }

    /// Marks the job stopped and reports it.
    pub fn stop(&mut self) -> (r: String)
        ensures
            final(self).spec_id() == old(self).spec_id(),
            final(self).spec_status() == JobStatus::Stopped,
            r@ == single_line(old(self).spec_id(), false),
    {
        self.apply(false)
    }

    pub fn status(&self) -> (r: &JobStatus)
        ensures
            *r == self.spec_status(),
    {
        &self.status
    }
}

impl MultipleJob {
    /// The sub-jobs, in the order given.
    pub closed spec fn spec_jobs(&self) -> Seq<JobImpl> {
        self.jobs@
    }

    pub closed spec fn spec_status(&self) -> JobStatus {
        self.status
    }

    pub fn new(jobs: Vec<JobImpl>) -> (r: MultipleJob)
        ensures
            r.spec_jobs() == jobs@,
            r.spec_status() == JobStatus::Pending,
    {
        MultipleJob { jobs, status: JobStatus::Pending }
    }

    fn apply(&mut self, starting: bool) -> (r: String)
        ensures
            final(self).status == target(starting),
            all_settled(old(self).jobs@, final(self).jobs@, target(starting)),
            r@ == group_header(starting) + join_with(texts(old(self).jobs@, starting), "\n"@),
        decreases *old(self),
    {
        let ghost before = self.jobs@;
        let mut out = if starting {
            self.status = JobStatus::Running;
            String::from_str("Running multiple jobs:\n")
        } else {
            self.status = JobStatus::Stopped;
            String::from_str("Stopping multiple jobs:\n")
        };
        let mut i: usize = 0;
        while i < self.jobs.len()
            invariant
                before == old(self).jobs@,
                self.jobs@.len() == before.len(),
                i <= before.len(),
                self.status == target(starting),
                forall|k: int| 0 <= k < i ==> settled(#[trigger] before[k], self.jobs@[k], target(starting)),
                forall|k: int| i <= k < before.len() ==> #[trigger] self.jobs@[k] == before[k],
                out@ == group_header(starting) + join_with(
                    texts(before.subrange(0, i as int), starting),
                    "\n"@,
                ),
            decreases before.len() - i,
        {
            let ghost p = texts(before.subrange(0, i as int), starting);
            proof {
                assert(before.subrange(0, i + 1).subrange(0, i as int) =~= before.subrange(0, i as int));
                lemma_texts_index(before.subrange(0, i as int), starting);
                assert(texts(before.subrange(0, i + 1), starting).drop_last() =~= p);
            }
            if i > 0 {
                out.append("\n");
            }
            let t = self.jobs[i].apply(starting);
            out.append(t.as_str());
            i = i + 1;
        }
        proof {
            assert(before.subrange(0, i as int) =~= before);
            lemma_all_settled_from_each(before, self.jobs@, target(starting));
        }
        out
    }

    /// Marks the group running, then runs each sub-job in order; the
    /// report is the header followed by the sub-jobs' reports, one per line.
    pub fn run(&mut self) -> (r: String)
        ensures
            final(self).spec_status() == JobStatus::Running,
            all_settled(old(self).spec_jobs(), final(self).spec_jobs(), JobStatus::Running),
            r@ == group_header(true) + join_with(texts(old(self).spec_jobs(), true), "\n"@),
    {
        self.apply(true)
    }

    /// Marks the group stopped, then stops each sub-job in order; the
    /// report is the header followed by the sub-jobs' reports, one per line.
    pub fn stop(&mut self) -> (r: String)
        ensures
            final(self).spec_status() == JobStatus::Stopped,
            all_settled(old(self).spec_jobs(), final(self).spec_jobs(), JobStatus::Stopped),
            r@ == group_header(false) + join_with(texts(old(self).spec_jobs(), false), "\n"@),
    {
        self.apply(false)
    }

    /// The sub-jobs, in the order given.
    pub fn jobs(&self) -> (r: &[JobImpl])
        ensures
            r@ == self.spec_jobs(),
    {
        self.jobs.as_slice()
    }

    /// The group's own status, which is not derived from its sub-jobs.
    pub fn status(&self) -> (r: &JobStatus)
        ensures
            *r == self.spec_status(),
    {
        &self.status
    }
}

impl JobImpl {
    fn apply(&mut self, starting: bool) -> (r: String)
        ensures
            settled(*old(self), *final(self), target(starting)),
            r@ == job_text(*old(self), starting),
        decreases *old(self),
    {
        match self {
            JobImpl::Single(s) => s.apply(starting),
            JobImpl::Multiple(m) => m.apply(starting),
        }
    }

    pub fn status(&self) -> (r: &JobStatus)
        ensures
            *r == status_of(*self),
    {
        match self {
            JobImpl::Single(s) => &s.status,
            JobImpl::Multiple(m) => &m.status,
        }
    }
}


impl Job {
    /// The implementation held by the job.
    pub closed spec fn spec_impl(&self) -> JobImpl {
        self.implementation
    }

    pub fn new(implementation: JobImpl) -> (r: Job)
        ensures
            r.spec_impl() == implementation,
    {
        Job { implementation }
    }

    /// Runs the held implementation and returns its report.
    pub fn run(&mut self) -> (r: String)
        ensures
            settled(old(self).spec_impl(), final(self).spec_impl(), JobStatus::Running),
            r@ == job_text(old(self).spec_impl(), true),
    {
        self.implementation.apply(true)
    }

    /// Stops the held implementation and returns its report.
    pub fn stop(&mut self) -> (r: String)
        ensures
            settled(old(self).spec_impl(), final(self).spec_impl(), JobStatus::Stopped),
            r@ == job_text(old(self).spec_impl(), false),
    {
        self.implementation.apply(false)
    }

    /// The own status of the held implementation.
    pub fn status(&self) -> (r: &JobStatus)
        ensures
            *r == status_of(self.spec_impl()),
    {
        self.implementation.status()
    }
}

} // verus!
