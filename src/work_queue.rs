//! The work of a run as a queue shared by a bounded number of workers: a job
//! is a directory to transfer or a file to upload, and a directory's job adds
//! the jobs of its entries.
use vstd::prelude::*;
use crate::engine::{action_of, Action, ActionModel};
use crate::filter::{in_skip, EntryKind, Filter};
use crate::outcome::{EntryOutcome, Summary};

verus! {

/// One piece of work for a worker.
pub enum Job {
    /// Confirm the remote directory `remote`, list the local directory
    /// `local`, and queue the work for its entries.
    Directory { local: String, remote: String },
    /// Upload the local file `local` to the remote file `remote`.
    File { local: String, remote: String },
}

/// A job, over paths as character sequences.
pub enum JobModel {
    Directory(Seq<char>, Seq<char>),
    File(Seq<char>, Seq<char>),
}

impl View for Job {
    type V = JobModel;

    open spec fn view(&self) -> JobModel {
        match self {
            Job::Directory { local, remote } => JobModel::Directory(local@, remote@),
            Job::File { local, remote } => JobModel::File(local@, remote@),
        }
    }
}

/// The jobs that a directory's plan gives, in the plan's order: one for each
/// descent and each upload, none for a skip or an ignored entry.
pub open spec fn jobs_of(plan: Seq<ActionModel>) -> Seq<JobModel>
    decreases plan.len(),
{
    if plan.len() == 0 {
        Seq::empty()
    } else {
        let rest = jobs_of(plan.drop_last());
        match plan.last() {
            ActionModel::Descend(l, r) => rest.push(JobModel::Directory(l, r)),
            ActionModel::Upload(l, r) => rest.push(JobModel::File(l, r)),
            _ => rest,
        }
    }
}

/// The paths that a directory's plan skips, each with the filter's reason, in
/// the plan's order.
pub open spec fn skips_of(plan: Seq<ActionModel>) -> Seq<(Seq<char>, Filter)>
    decreases plan.len(),
{
    if plan.len() == 0 {
        Seq::empty()
    } else {
        let rest = skips_of(plan.drop_last());
        match plan.last() {
            ActionModel::Skip(p, f) => rest.push((p, f)),
            _ => rest,
        }
    }
}

/// Jobs waiting, and the number of jobs that workers hold, which never
/// exceeds the limit.
pub struct WorkQueue {
    pending: Vec<Job>,
    running: usize,
    limit: usize,
}

impl WorkQueue {
    /// The jobs waiting; the last is handed out first.
    pub closed spec fn pending(&self) -> Seq<JobModel> {
        self.pending@.map_values(|j: Job| j@)
    }

    /// The number of jobs handed out and not yet finished.
    pub closed spec fn running(&self) -> nat {
        self.running as nat
    }

    /// The most jobs that may be handed out at once.
    pub closed spec fn limit(&self) -> nat {
        self.limit as nat
    }

    pub closed spec fn wf(&self) -> bool {
        self.running <= self.limit
    }

    /// A queue that holds the transfer of the local directory `local` into
    /// the remote directory `remote`, and hands out at most `limit` jobs at
    /// once.
    pub fn new(local: String, remote: String, limit: usize) -> (r: WorkQueue)
        requires
            limit > 0,
        ensures
            r.wf(),
            r.pending() == seq![JobModel::Directory(local@, remote@)],
            r.running() == 0,
            r.limit() == limit,
    {
        let mut pending: Vec<Job> = Vec::new();
        pending.push(Job::Directory { local, remote });
        let r = WorkQueue { pending, running: 0, limit };
        assert(r.pending() =~= seq![JobModel::Directory(local@, remote@)]);
        r
    }

    /// Hands out the next job, unless none waits or `limit` jobs are out.
    pub fn take(&mut self) -> (r: Option<Job>)
        requires
            old(self).wf(),
        ensures
            final(self).wf(),
            final(self).limit() == old(self).limit(),
            r is Some <==> old(self).pending().len() > 0 && old(self).running() < old(
                self,
            ).limit(),
            r is Some ==> {
                &&& r.unwrap()@ == old(self).pending().last()
                &&& final(self).pending() == old(self).pending().drop_last()
                &&& final(self).running() == old(self).running() + 1
            },
            r is None ==> final(self).pending() == old(self).pending() && final(self).running()
                == old(self).running(),
    {
        if self.running < self.limit && self.pending.len() > 0 {
            let ghost before = self.pending@;
            let job = self.pending.pop().unwrap();
            proof {
                assert(self.pending@ =~= before.drop_last());
                assert(self.pending() =~= before.map_values(|j: Job| j@).drop_last());
            }
            self.running = self.running + 1;
            Some(job)
        } else {
            None
        }
    }

    /// Marks one job that was handed out as finished.
    pub fn finish(&mut self)
        requires
            old(self).wf(),
            old(self).running() > 0,
        ensures
            final(self).wf(),
            final(self).limit() == old(self).limit(),
            final(self).pending() == old(self).pending(),
            final(self).running() == old(self).running() - 1,
    {
        self.running = self.running - 1;
    }

    /// Whether the run is over: nothing waits and nothing is out.
    pub fn is_done(&self) -> (r: bool)
        ensures
            r == (self.pending().len() == 0 && self.running() == 0),
    {
        self.pending.len() == 0 && self.running == 0
    }

    /// Queues the jobs of a directory's plan, and returns the paths that the
    /// plan skips, each with its reason.
    pub fn add_plan(&mut self, plan: Vec<Action>) -> (r: Vec<(String, Filter)>)
        requires
            old(self).wf(),
        ensures
            final(self).wf(),
            final(self).limit() == old(self).limit(),
            final(self).running() == old(self).running(),
            final(self).pending() == old(self).pending() + jobs_of(
                plan@.map_values(|a: Action| a@),
            ),
            r@.map_values(|p: (String, Filter)| (p.0@, p.1)) == skips_of(
                plan@.map_values(|a: Action| a@),
            ),
    {
        let ghost start = self.pending();
        let ghost whole = plan@.map_values(|a: Action| a@);
        let mut skipped: Vec<(String, Filter)> = Vec::new();
        let mut rest = plan;
        let mut done: Vec<Action> = Vec::new();
        proof {
            assert(rest@ == plan@);
        }
        let n = rest.len();
        let mut i: usize = 0;
        while i < n
            invariant
                n == plan@.len(),
                i <= n,
                self.wf(),
                self.limit() == old(self).limit(),
                self.running() == old(self).running(),
                rest@.len() == n - i,
                forall|j: int| 0 <= j < rest@.len() ==> #[trigger] rest@[j]@ == whole[(i + j)],
                self.pending() == start + jobs_of(whole.subrange(0, i as int)),
                skipped@.map_values(|p: (String, Filter)| (p.0@, p.1)) == skips_of(
                    whole.subrange(0, i as int),
                ),
                whole == plan@.map_values(|a: Action| a@),
            decreases n - i,
        {
            let ghost rest_before = rest@;
            let a = rest.remove(0);
            let ghost prefix = whole.subrange(0, i as int);
            let ghost next = whole.subrange(0, i + 1);
            proof {
                assert(next.drop_last() =~= prefix);
                assert(next.last() == a@);
                assert forall|j: int| 0 <= j < rest@.len() implies #[trigger] rest@[j]@ == whole[(
                i + 1 + j)] by {
                    assert(rest@[j] == rest_before[j + 1]);
                }
            }
            let ghost pending_before = self.pending();
            let ghost skipped_before = skipped@.map_values(|p: (String, Filter)| (p.0@, p.1));
            match a {
                Action::Descend { local, remote } => {
                    let ghost j = JobModel::Directory(local@, remote@);
                    self.pending.push(Job::Directory { local, remote });
                    assert(self.pending() =~= pending_before.push(j));
                },
                Action::Upload { local, remote } => {
                    let ghost j = JobModel::File(local@, remote@);
                    self.pending.push(Job::File { local, remote });
                    assert(self.pending() =~= pending_before.push(j));
                },
                Action::Skip { path, reason } => {
                    let ghost p = (path@, reason);
                    skipped.push((path, reason));
                    assert(skipped@.map_values(|p: (String, Filter)| (p.0@, p.1)) =~= skipped_before.push(p));
                },
                Action::Ignore { .. } => {},
            }
            i = i + 1;
        }
        assert(whole.subrange(0, n as int) =~= whole);
        skipped
    }
}

/// The local path that a job reads.
pub open spec fn job_local(j: JobModel) -> Seq<char> {
    match j {
        JobModel::Directory(l, _) => l,
        JobModel::File(l, _) => l,
    }
}

/// The plan of the local directory `local_dir` for a listing of (base name,
/// kind) pairs.
pub open spec fn plan_of(
    local_dir: Seq<char>,
    remote_dir: Seq<char>,
    entries: Seq<(Seq<char>, EntryKind)>,
    skip: Seq<Seq<char>>,
    ignore_dotfiles: bool,
) -> Seq<ActionModel> {
    entries.map_values(
        |e: (Seq<char>, EntryKind)| action_of(local_dir, remote_dir, e.0, e.1, skip, ignore_dotfiles),
    )
}

/// No job is queued for a path in the skip set: neither an upload nor a
/// directory, whose job is the only one that creates a remote directory.
pub proof fn lemma_skip_set_queues_nothing(
    local_dir: Seq<char>,
    remote_dir: Seq<char>,
    entries: Seq<(Seq<char>, EntryKind)>,
    skip: Seq<Seq<char>>,
    ignore_dotfiles: bool,
)
    ensures
        forall|j: JobModel|
            #[trigger] jobs_of(plan_of(local_dir, remote_dir, entries, skip, ignore_dotfiles)).contains(
                j,
            ) ==> !in_skip(skip, job_local(j)),
    decreases entries.len(),
{
    let plan = plan_of(local_dir, remote_dir, entries, skip, ignore_dotfiles);
    if entries.len() > 0 {
        let shorter = entries.drop_last();
        lemma_skip_set_queues_nothing(local_dir, remote_dir, shorter, skip, ignore_dotfiles);
        assert(plan.drop_last() =~= plan_of(local_dir, remote_dir, shorter, skip, ignore_dotfiles));
        let e = entries.last();
        assert(plan.last() == action_of(local_dir, remote_dir, e.0, e.1, skip, ignore_dotfiles));
        let rest = jobs_of(plan.drop_last());
        assert forall|j: JobModel| #[trigger] jobs_of(plan).contains(j) implies !in_skip(skip, job_local(j)) by {
            if !rest.contains(j) {
                let k = choose|k: int| 0 <= k < jobs_of(plan).len() && jobs_of(plan)[k] == j;
                match plan.last() {
                    ActionModel::Descend(l, r) => {
                        assert(jobs_of(plan) == rest.push(JobModel::Directory(l, r)));
                        if k < rest.len() {
                            assert(rest.contains(j));
                        }
                    },
                    ActionModel::Upload(l, r) => {
                        assert(jobs_of(plan) == rest.push(JobModel::File(l, r)));
                        if k < rest.len() {
                            assert(rest.contains(j));
                        }
                    },
                    _ => {
                        assert(rest.contains(j));
                    },
                }
            }
        }
    }
}

/// What a worker found when it did a job.
pub enum JobResult {
    /// A directory's remote counterpart was confirmed and its listing
    /// planned.
    Planned(Vec<Action>),
    /// A file was uploaded.
    Uploaded,
    /// The job failed, for the reason given: a file that could not be read
    /// or written, or a directory that could not be confirmed or listed.
    Failed(String),
}

/// What a job that succeeded records: an upload for a file, an uploaded
/// directory for any directory but the run's root, which is the run itself.
pub open spec fn success_of(job: JobModel, root: Seq<char>) -> Seq<EntryOutcome> {
    match job {
        JobModel::File(_, _) => seq![EntryOutcome::FileUploaded],
        JobModel::Directory(l, _) => if l == root {
            Seq::empty()
        } else {
            seq![EntryOutcome::DirectoryUploaded]
        },
    }
}

/// The number of entries that a result may record.
pub open spec fn result_size(result: &JobResult) -> nat {
    match result {
        JobResult::Planned(plan) => plan@.len() + 1,
        _ => 1,
    }
}

fn local_of(job: &Job) -> (r: &String)
    ensures
        r@ == job_local(job@),
{
    match job {
        Job::Directory { local, .. } => local,
        Job::File { local, .. } => local,
    }
}

/// Completes a job that a worker held, with what the worker found: the job
/// is no longer out; a planned directory queues the jobs of its entries and
/// records its skips; a failure records the job's path and reason and queues
/// nothing, so that a failed directory abandons its own subtree and no other
/// job. Returns the skips, each with its reason.
pub fn complete_job(
    queue: &mut WorkQueue,
    summary: &mut Summary,
    root: &str,
    job: &Job,
    result: JobResult,
) -> (r: Vec<(String, Filter)>)
    requires
        old(queue).wf(),
        old(queue).running() > 0,
        old(summary).wf(),
        old(summary).recorded().len() + result_size(&result) < u64::MAX,
    ensures
        final(queue).wf(),
        final(summary).wf(),
        final(queue).limit() == old(queue).limit(),
        final(queue).running() == old(queue).running() - 1,
        match result {
            JobResult::Planned(plan) => {
                let planned = plan@.map_values(|a: Action| a@);
                &&& final(queue).pending() == old(queue).pending() + jobs_of(planned)
                &&& r@.map_values(|p: (String, Filter)| (p.0@, p.1)) == skips_of(planned)
                &&& final(summary).recorded() == old(summary).recorded() + success_of(
                    job@,
                    root@,
                ) + Seq::new(skips_of(planned).len(), |i: int| EntryOutcome::Skipped)
                &&& final(summary).errors_view() == old(summary).errors_view()
            },
            JobResult::Uploaded => {
                &&& final(queue).pending() == old(queue).pending()
                &&& r@.len() == 0
                &&& final(summary).recorded() == old(summary).recorded() + success_of(
                    job@,
                    root@,
                )
                &&& final(summary).errors_view() == old(summary).errors_view()
            },
            JobResult::Failed(message) => {
                &&& final(queue).pending() == old(queue).pending()
                &&& r@.len() == 0
                &&& final(summary).recorded() == old(summary).recorded().push(
                    EntryOutcome::Failed,
                )
                &&& final(summary).errors_view() == old(summary).errors_view().push(
                    (job_local(job@), message@),
                )
            },
        },
{
    queue.finish();
    let empty = String::new();
    match result {
        JobResult::Failed(message) => {
            summary.record(local_of(job), EntryOutcome::Failed, &message);
            Vec::new()
        },
        JobResult::Uploaded => {
            record_success(summary, root, job);
            Vec::new()
        },
        JobResult::Planned(plan) => {
            let ghost planned = plan@.map_values(|a: Action| a@);
            let ghost plan_len = plan@.len();
            record_success(summary, root, job);
            let skipped = queue.add_plan(plan);
            let ghost start = summary.recorded();
            let ghost sv = skipped@.map_values(|p: (String, Filter)| (p.0@, p.1));
            proof {
                lemma_skips_len(planned);
                assert(sv.len() == skipped@.len());
            }
            let mut i: usize = 0;
            while i < skipped.len()
                invariant
                    i <= skipped@.len(),
                    skipped@.len() <= plan_len,
                    summary.wf(),
                    start.len() + plan_len < u64::MAX,
                    summary.recorded() == start + Seq::new(i as nat, |k: int| EntryOutcome::Skipped),
                    summary.errors_view() == old(summary).errors_view(),
                decreases skipped.len() - i,
            {
                summary.record(&skipped[i].0, EntryOutcome::Skipped, &empty);
                assert(summary.recorded() =~= start + Seq::new((i + 1) as nat, |k: int| EntryOutcome::Skipped));
                i = i + 1;
            }
            assert(summary.recorded() =~= old(summary).recorded() + success_of(job@, root@) + Seq::new(
                skips_of(planned).len(),
                |k: int| EntryOutcome::Skipped,
            ));
            skipped
        },
    }
}

proof fn lemma_skips_len(plan: Seq<ActionModel>)
    ensures
        skips_of(plan).len() <= plan.len(),
    decreases plan.len(),
{
    if plan.len() > 0 {
        lemma_skips_len(plan.drop_last());
    }
}

fn record_success(summary: &mut Summary, root: &str, job: &Job)
    requires
        old(summary).wf(),
        old(summary).recorded().len() + 1 < u64::MAX,
    ensures
        final(summary).wf(),
        final(summary).recorded() == old(summary).recorded() + success_of(job@, root@),
        final(summary).errors_view() == old(summary).errors_view(),
{
    let empty = String::new();
    match job {
        Job::File { local, .. } => {
            summary.record(local, EntryOutcome::FileUploaded, &empty);
            assert(summary.recorded() =~= old(summary).recorded() + success_of(job@, root@));
        },
        Job::Directory { local, .. } => {
            let root_path = String::from_str(root);
            if *local == root_path {
                assert(old(summary).recorded() + success_of(job@, root@) =~= old(summary).recorded());
            } else {
                summary.record(local, EntryOutcome::DirectoryUploaded, &empty);
                assert(summary.recorded() =~= old(summary).recorded() + success_of(job@, root@));
            }
        },
    }
}

} // verus!
