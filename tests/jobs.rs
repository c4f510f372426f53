use design_patterns::bridge::{Job, JobImpl, JobStatus, MultipleJob, SingleJob};

#[test]
fn test_single_job_lifecycle() {
    let single_job_impl = SingleJob::new(1);
    assert_eq!(*single_job_impl.status(), JobStatus::Pending);

    let mut job = Job::new(JobImpl::Single(single_job_impl));
    assert_eq!(*job.status(), JobStatus::Pending);

    assert_eq!(job.run(), "Running single job 1");
    assert_eq!(*job.status(), JobStatus::Running);

    assert_eq!(job.stop(), "Stopping single job 1");
    assert_eq!(*job.status(), JobStatus::Stopped);
}

#[test]
fn test_multiple_job_lifecycle() {
    let sub_job1 = JobImpl::Single(SingleJob::new(10));
    let sub_job2 = JobImpl::Single(SingleJob::new(11));
    let multiple_job_impl = MultipleJob::new(vec![sub_job1, sub_job2]);
    assert_eq!(*multiple_job_impl.status(), JobStatus::Pending);

    let mut job = Job::new(JobImpl::Multiple(multiple_job_impl));
    assert_eq!(*job.status(), JobStatus::Pending);

    let expected_run_output =
        "Running multiple jobs:\nRunning single job 10\nRunning single job 11";
    assert_eq!(job.run(), expected_run_output);
    assert_eq!(*job.status(), JobStatus::Running);

    let expected_stop_output =
        "Stopping multiple jobs:\nStopping single job 10\nStopping single job 11";
    assert_eq!(job.stop(), expected_stop_output);
    assert_eq!(*job.status(), JobStatus::Stopped);
}

#[test]
fn test_nested_multiple_job() {
    let sub_job1 = JobImpl::Single(SingleJob::new(100));
    let sub_job2 = JobImpl::Single(SingleJob::new(101));
    let inner_multiple_job = JobImpl::Multiple(MultipleJob::new(vec![sub_job1, sub_job2]));

    let sub_job3 = JobImpl::Single(SingleJob::new(200));

    let outer_multiple_job_impl = MultipleJob::new(vec![inner_multiple_job, sub_job3]);
    assert_eq!(*outer_multiple_job_impl.status(), JobStatus::Pending);

    let mut job = Job::new(JobImpl::Multiple(outer_multiple_job_impl));

    let expected_run_output = "Running multiple jobs:\nRunning multiple jobs:\nRunning single job 100\nRunning single job 101\nRunning single job 200";
    assert_eq!(job.run(), expected_run_output);
    assert_eq!(*job.status(), JobStatus::Running);

    let expected_stop_output = "Stopping multiple jobs:\nStopping multiple jobs:\nStopping single job 100\nStopping single job 101\nStopping single job 200";
    assert_eq!(job.stop(), expected_stop_output);
    assert_eq!(*job.status(), JobStatus::Stopped);
}

#[test]
fn single_job_run_then_stop_directly() {
    let mut job = SingleJob::new(42);
    assert_eq!(*job.status(), JobStatus::Pending);
    assert_eq!(job.run(), "Running single job 42");
    assert_eq!(*job.status(), JobStatus::Running);
    assert_eq!(job.run(), "Running single job 42");
    assert_eq!(*job.status(), JobStatus::Running);
    assert_eq!(job.stop(), "Stopping single job 42");
    assert_eq!(*job.status(), JobStatus::Stopped);
}

#[test]
fn single_job_with_largest_id() {
    let mut job = SingleJob::new(u32::MAX);
    assert_eq!(job.run(), "Running single job 4294967295");
    let mut zero = SingleJob::new(0);
    assert_eq!(zero.stop(), "Stopping single job 0");
}

fn status_of(j: &JobImpl) -> JobStatus {
    *j.status()
}

fn all_leaves(j: &JobImpl, want: JobStatus) -> bool {
    match j {
        JobImpl::Single(s) => *s.status() == want,
        JobImpl::Multiple(m) => m.jobs().iter().all(|c| all_leaves(c, want)),
    }
}

#[test]
fn run_reaches_every_nested_leaf() {
    let inner = MultipleJob::new(vec![
        JobImpl::Single(SingleJob::new(1)),
        JobImpl::Multiple(MultipleJob::new(vec![JobImpl::Single(SingleJob::new(2))])),
    ]);
    let mut outer = MultipleJob::new(vec![JobImpl::Multiple(inner), JobImpl::Single(SingleJob::new(3))]);
    outer.run();
    assert_eq!(*outer.status(), JobStatus::Running);
    for c in outer.jobs() {
        assert_eq!(status_of(c), JobStatus::Running);
        assert!(all_leaves(c, JobStatus::Running));
    }
    outer.stop();
    assert_eq!(*outer.status(), JobStatus::Stopped);
    for c in outer.jobs() {
        assert!(all_leaves(c, JobStatus::Stopped));
    }
}

#[test]
fn empty_group_reports_header_only() {
    let mut group = MultipleJob::new(vec![]);
    assert_eq!(group.run(), "Running multiple jobs:\n");
    assert_eq!(*group.status(), JobStatus::Running);
    assert_eq!(group.stop(), "Stopping multiple jobs:\n");
    assert_eq!(*group.status(), JobStatus::Stopped);
}

#[test]
fn group_status_is_not_derived_from_children() {
    let mut child = SingleJob::new(5);
    child.run();
    let group = MultipleJob::new(vec![JobImpl::Single(child)]);
    assert_eq!(*group.status(), JobStatus::Pending);
    assert_eq!(*group.jobs()[0].status(), JobStatus::Running);
}

#[test]
fn two_leaf_group_marks_both_leaves() {
    let mut group = MultipleJob::new(vec![
        JobImpl::Single(SingleJob::new(10)),
        JobImpl::Single(SingleJob::new(11)),
    ]);
    assert_eq!(
        group.run(),
        "Running multiple jobs:\nRunning single job 10\nRunning single job 11"
    );
    assert_eq!(group.jobs().len(), 2);
    assert_eq!(status_of(&group.jobs()[0]), JobStatus::Running);
    assert_eq!(status_of(&group.jobs()[1]), JobStatus::Running);
}
