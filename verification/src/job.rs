//! The work on one repository: listing its refs, or scanning one or more of
//! them.
//!
//! A job says which git operation comes next; its owner carries it out and says
//! what came of it, until the job is finished.

use vstd::prelude::*;
use vstd::string::*;

use crate::access::RepoSource;
use crate::label::{make_side_label, side_label};

verus! {

/// A ref to scan: the label of its scan, and the worktree it is checked out
/// into. Here and below `S` is `String`; in contracts it is the sequence of the
/// characters.
#[derive(Debug, PartialEq, Eq)]
pub struct RefTask<S> {
    pub ref_name: S,
    pub label: S,
    pub worktree: S,
}

impl View for RefTask<String> {
    type V = RefTask<Seq<char>>;

    open spec fn view(&self) -> RefTask<Seq<char>> {
        RefTask { ref_name: self.ref_name@, label: self.label@, worktree: self.worktree@ }
    }
}

/// A scan that has been run.
#[derive(Debug, PartialEq, Eq)]
pub struct ScanRun<S> {
    pub run_id: S,
    /// The branch that was checked out; a worktree at a tag or a commit has
    /// none.
    pub git_branch: Option<S>,
    /// The scan has left an HTML report.
    pub has_html: bool,
}

/// An optional string as characters.
pub open spec fn option_view(s: Option<String>) -> Option<Seq<char>> {
    match s {
        Some(s) => Some(s@),
        None => None,
    }
}

impl View for ScanRun<String> {
    type V = ScanRun<Seq<char>>;

    open spec fn view(&self) -> ScanRun<Seq<char>> {
        ScanRun {
            run_id: self.run_id@,
            git_branch: option_view(self.git_branch),
            has_html: self.has_html,
        }
    }
}

/// A git operation, or one on what it has left behind.
#[derive(Debug, PartialEq, Eq)]
pub enum GitAction<S> {
    /// Open the local repository in place.
    OpenLocalRepo,
    /// Clone the repository, or fetch it where it has been cloned before.
    CloneOrFetch { repo: S },
    /// List the refs of the repository.
    ListRefs { source: RepoSource },
    /// Check a ref out into a new worktree.
    CreateWorktree { ref_name: S, worktree: S },
    /// Fetch the submodules into a worktree. Whether it works is not the job's
    /// concern.
    PopulateSubmodules { worktree: S },
    /// Scan what is in a worktree.
    ScanWorktree { worktree: S, label: S },
    /// Remove a worktree. Whether it works is not the job's concern.
    DestroyWorktree { worktree: S },
    /// Write the HTML report of the last scan again, now with a branch. Whether
    /// it works is not the job's concern.
    RewriteReport { branch: S },
}

impl View for GitAction<String> {
    type V = GitAction<Seq<char>>;

    open spec fn view(&self) -> GitAction<Seq<char>> {
        match self {
            GitAction::OpenLocalRepo => GitAction::OpenLocalRepo,
            GitAction::CloneOrFetch { repo } => GitAction::CloneOrFetch { repo: repo@ },
            GitAction::ListRefs { source } => GitAction::ListRefs { source: *source },
            GitAction::CreateWorktree { ref_name, worktree } => GitAction::CreateWorktree {
                ref_name: ref_name@,
                worktree: worktree@,
            },
            GitAction::PopulateSubmodules { worktree } => GitAction::PopulateSubmodules {
                worktree: worktree@,
            },
            GitAction::ScanWorktree { worktree, label } => GitAction::ScanWorktree {
                worktree: worktree@,
                label: label@,
            },
            GitAction::DestroyWorktree { worktree } => GitAction::DestroyWorktree {
                worktree: worktree@,
            },
            GitAction::RewriteReport { branch } => GitAction::RewriteReport { branch: branch@ },
        }
    }
}

/// What came of an operation.
pub enum GitEvent<S> {
    /// It is done, and there is nothing more to say.
    Done,
    /// The refs were listed; this is the list as JSON.
    Listed(S),
    /// The scan was run.
    Scanned(ScanRun<S>),
    /// It failed.
    Failed(anyhow::Error),
}

impl View for GitEvent<String> {
    type V = GitEvent<Seq<char>>;

    open spec fn view(&self) -> GitEvent<Seq<char>> {
        match self {
            GitEvent::Done => GitEvent::Done,
            GitEvent::Listed(text) => GitEvent::Listed(text@),
            GitEvent::Scanned(run) => GitEvent::Scanned(run@),
            GitEvent::Failed(e) => GitEvent::Failed(*e),
        }
    }
}

/// Can `event` come of `action`? Anything can fail; a list comes of listing, a
/// run of scanning, and of all else only that it is done.
pub open spec fn answers(action: GitAction<Seq<char>>, event: GitEvent<Seq<char>>) -> bool {
    match event {
        GitEvent::Failed(_) => true,
        GitEvent::Listed(_) => action is ListRefs,
        GitEvent::Scanned(_) => action is ScanWorktree,
        GitEvent::Done => !(action is ListRefs) && !(action is ScanWorktree),
    }
}

/// How far a job has come.
pub enum Phase<S> {
    /// The repository is being opened, cloned or fetched.
    Resolve,
    /// Its refs are being listed.
    List,
    /// The current ref is being checked out.
    Create,
    /// Its submodules are being fetched.
    Populate,
    /// It is being scanned.
    Scan,
    /// Its worktree is being removed; the outcome of the scan is kept.
    Destroy(Result<ScanRun<S>, anyhow::Error>),
    /// The report of the scan is being written again.
    Rewrite,
    /// Finished: the refs are listed.
    Listed(S),
    /// Finished: every ref is scanned.
    Scanned,
    /// Finished: something failed.
    Failed(anyhow::Error),
}

impl View for Phase<String> {
    type V = Phase<Seq<char>>;

    open spec fn view(&self) -> Phase<Seq<char>> {
        match self {
            Phase::Resolve => Phase::Resolve,
            Phase::List => Phase::List,
            Phase::Create => Phase::Create,
            Phase::Populate => Phase::Populate,
            Phase::Scan => Phase::Scan,
            Phase::Destroy(Ok(run)) => Phase::Destroy(Ok(run@)),
            Phase::Destroy(Err(e)) => Phase::Destroy(Err(*e)),
            Phase::Rewrite => Phase::Rewrite,
            Phase::Listed(text) => Phase::Listed(text@),
            Phase::Scanned => Phase::Scanned,
            Phase::Failed(e) => Phase::Failed(*e),
        }
    }
}

/// A job, for contracts.
pub struct JobView {
    pub repo: Seq<char>,
    pub source: RepoSource,
    /// Are submodules fetched?
    pub populate: bool,
    /// Is the job to list the refs, rather than to scan some?
    pub listing: bool,
    /// The refs to scan, in their order.
    pub tasks: Seq<RefTask<Seq<char>>>,
    /// The runs of those that have been scanned.
    pub reports: Seq<ScanRun<Seq<char>>>,
    pub phase: Phase<Seq<char>>,
}

/// A run with a branch: where it has none, the ref that was checked out.
pub open spec fn with_branch(run: ScanRun<Seq<char>>, ref_name: Seq<char>) -> ScanRun<Seq<char>> {
    ScanRun {
        git_branch: match run.git_branch {
            Some(branch) => Some(branch),
            None => Some(ref_name),
        },
        ..run
    }
}

impl JobView {
    pub open spec fn finished(self) -> bool {
        self.phase is Listed || self.phase is Scanned || self.phase is Failed
    }

    /// The ref being worked on is the first that has no run yet.
    pub open spec fn task(self) -> RefTask<Seq<char>> {
        self.tasks[self.reports.len() as int]
    }

    /// The same job in another phase.
    pub open spec fn at(self, phase: Phase<Seq<char>>) -> JobView {
        JobView { phase, ..self }
    }

    /// On to the next ref, or to the end.
    pub open spec fn advanced(self) -> JobView {
        self.at(
            if self.reports.len() < self.tasks.len() {
                Phase::Create
            } else {
                Phase::Scanned
            },
        )
    }

    /// What a job always is: it has run no more scans than it has refs, each run
    /// has a branch, and its phase fits the rest of it.
    pub open spec fn well_formed(self) -> bool {
        &&& self.reports.len() <= self.tasks.len()
        &&& forall|k: int|
            0 <= k < self.reports.len() ==> (#[trigger] self.reports[k]).git_branch is Some
        &&& match self.phase {
            Phase::Resolve => self.reports.len() == 0,
            Phase::List => self.listing,
            Phase::Listed(_) => self.listing,
            Phase::Populate => self.populate && !self.listing && self.reports.len()
                < self.tasks.len(),
            Phase::Create | Phase::Scan | Phase::Destroy(_) => !self.listing && self.reports.len()
                < self.tasks.len(),
            Phase::Rewrite => !self.listing && self.reports.len() > 0
                && self.reports.last().git_branch == Some(
                self.tasks[self.reports.len() - 1].ref_name,
            ),
            Phase::Scanned => !self.listing && self.reports.len() == self.tasks.len(),
            Phase::Failed(_) => true,
        }
    }

    /// Can `output` be what the job has to show for itself? A list for a job
    /// that lists, else one run for each ref.
    pub open spec fn may_yield(self, output: OutputView) -> bool {
        match output {
            OutputView::Refs(_) => self.listing,
            OutputView::Runs(runs) => !self.listing && runs.len() == self.tasks.len(),
        }
    }

    /// The operation that comes next; none once the job is finished.
    pub open spec fn pending(self) -> Option<GitAction<Seq<char>>> {
        match self.phase {
            Phase::Resolve => Some(
                match self.source {
                    RepoSource::Local => GitAction::OpenLocalRepo,
                    RepoSource::Remote => GitAction::CloneOrFetch { repo: self.repo },
                },
            ),
            Phase::List => Some(GitAction::ListRefs { source: self.source }),
            Phase::Create => Some(
                GitAction::CreateWorktree {
                    ref_name: self.task().ref_name,
                    worktree: self.task().worktree,
                },
            ),
            Phase::Populate => Some(
                GitAction::PopulateSubmodules { worktree: self.task().worktree },
            ),
            Phase::Scan => Some(
                GitAction::ScanWorktree {
                    worktree: self.task().worktree,
                    label: self.task().label,
                },
            ),
            Phase::Destroy(_) => Some(
                GitAction::DestroyWorktree { worktree: self.task().worktree },
            ),
            Phase::Rewrite => Some(
                GitAction::RewriteReport { branch: self.reports.last().git_branch->0 },
            ),
            Phase::Listed(_) | Phase::Scanned | Phase::Failed(_) => None,
        }
    }

    /// The job once the outcome of that operation is known.
    pub open spec fn after(self, event: GitEvent<Seq<char>>) -> JobView {
        match (self.phase, event) {
            (Phase::Resolve, GitEvent::Failed(e)) => self.at(Phase::Failed(e)),
            (Phase::Resolve, _) => if self.listing {
                self.at(Phase::List)
            } else {
                self.advanced()
            },
            (Phase::List, GitEvent::Listed(text)) => self.at(Phase::Listed(text)),
            (Phase::List, GitEvent::Failed(e)) => self.at(Phase::Failed(e)),
            (Phase::Create, GitEvent::Failed(e)) => self.at(Phase::Failed(e)),
            (Phase::Create, _) => self.at(
                if self.populate {
                    Phase::Populate
                } else {
                    Phase::Scan
                },
            ),
            (Phase::Populate, _) => self.at(Phase::Scan),
            (Phase::Scan, GitEvent::Scanned(run)) => self.at(Phase::Destroy(Ok(run))),
            (Phase::Scan, GitEvent::Failed(e)) => self.at(Phase::Destroy(Err(e))),
            (Phase::Destroy(Err(e)), _) => self.at(Phase::Failed(e)),
            (Phase::Destroy(Ok(run)), _) => {
                let reported = JobView {
                    reports: self.reports.push(with_branch(run, self.task().ref_name)),
                    ..self
                };
                if run.git_branch is None && run.has_html {
                    reported.at(Phase::Rewrite)
                } else {
                    reported.advanced()
                }
            },
            (Phase::Rewrite, _) => self.advanced(),
            _ => self,
        }
    }
}

/// A job that has not begun.
pub open spec fn new_job(
    repo: Seq<char>,
    source: RepoSource,
    populate: bool,
    listing: bool,
    tasks: Seq<RefTask<Seq<char>>>,
) -> JobView {
    JobView {
        repo,
        source,
        populate,
        listing,
        tasks,
        reports: Seq::empty(),
        phase: Phase::Resolve,
    }
}

/// The work on one repository.
pub struct GitJob {
    repo: String,
    source: RepoSource,
    populate: bool,
    listing: bool,
    tasks: Vec<RefTask<String>>,
    reports: Vec<ScanRun<String>>,
    phase: Phase<String>,
}

/// Refs to scan as characters.
pub open spec fn task_views(tasks: Seq<RefTask<String>>) -> Seq<RefTask<Seq<char>>> {
    tasks.map_values(|t: RefTask<String>| t@)
}

/// Runs as characters.
pub open spec fn run_views(runs: Seq<ScanRun<String>>) -> Seq<ScanRun<Seq<char>>> {
    runs.map_values(|r: ScanRun<String>| r@)
}

impl View for GitJob {
    type V = JobView;

    closed spec fn view(&self) -> JobView {
        JobView {
            repo: self.repo@,
            source: self.source,
            populate: self.populate,
            listing: self.listing,
            tasks: task_views(self.tasks@),
            reports: run_views(self.reports@),
            phase: self.phase@,
        }
    }
}

/// What a finished job has to show for itself.
#[derive(Debug, PartialEq, Eq)]
pub enum JobOutput {
    /// The refs, as JSON.
    Refs(String),
    /// The runs, one for each ref.
    Runs(Vec<ScanRun<String>>),
}

/// The same, for contracts.
pub enum OutputView {
    Refs(Seq<char>),
    Runs(Seq<ScanRun<Seq<char>>>),
}

impl View for JobOutput {
    type V = OutputView;

    open spec fn view(&self) -> OutputView {
        match self {
            JobOutput::Refs(text) => OutputView::Refs(text@),
            JobOutput::Runs(runs) => OutputView::Runs(run_views(runs@)),
        }
    }
}

/// List the refs of a repository: open or fetch it, then list.
pub fn load_refs(repo: &str, source: RepoSource) -> (job: GitJob)
    ensures
        job@ == new_job(repo@, source, false, true, Seq::empty()),
        job@.well_formed(),
{
    let job = GitJob {
        repo: repo.to_owned(),
        source,
        populate: false,
        listing: true,
        tasks: Vec::new(),
        reports: Vec::new(),
        phase: Phase::Resolve,
    };
    assert(job@.tasks =~= Seq::empty());
    assert(job@.reports =~= Seq::empty());
    job
}

/// Scan one ref of a repository.
pub fn run_ref_scan(repo: &str, source: RepoSource, populate: bool, task: RefTask<String>) -> (job:
    GitJob)
    ensures
        job@ == new_job(repo@, source, populate, false, seq![task@]),
        job@.well_formed(),
{
    let mut tasks: Vec<RefTask<String>> = Vec::new();
    tasks.push(task);
    let job = GitJob {
        repo: repo.to_owned(),
        source,
        populate,
        listing: false,
        tasks,
        reports: Vec::new(),
        phase: Phase::Resolve,
    };
    assert(job@.tasks =~= seq![task@]);
    assert(job@.reports =~= Seq::empty());
    job
}

/// One side of a comparison, as a ref to scan.
pub open spec fn side_task(
    label: Seq<char>,
    ref_name: Seq<char>,
    worktree: Seq<char>,
) -> RefTask<Seq<char>> {
    RefTask { ref_name, label: side_label(label, ref_name), worktree }
}

/// One side of a comparison, as a ref to scan.
fn make_side_task(label: &str, ref_name: &str, worktree: &str) -> (task: RefTask<String>)
    ensures
        task@ == side_task(label@, ref_name@, worktree@),
{
    RefTask {
        ref_name: ref_name.to_owned(),
        label: make_side_label(label, ref_name),
        worktree: worktree.to_owned(),
    }
}

/// Scan two refs of a repository, first the baseline, then the current one. The
/// label of each scan names its ref.
pub fn run_compare_refs(
    repo: &str,
    source: RepoSource,
    populate: bool,
    label: &str,
    baseline: (&str, &str),
    current: (&str, &str),
) -> (job: GitJob)
    ensures
        job@ == new_job(
            repo@,
            source,
            populate,
            false,
            seq![
                side_task(label@, baseline.0@, baseline.1@),
                side_task(label@, current.0@, current.1@),
            ],
        ),
        job@.well_formed(),
{
    let mut tasks: Vec<RefTask<String>> = Vec::new();
    tasks.push(make_side_task(label, baseline.0, baseline.1));
    tasks.push(make_side_task(label, current.0, current.1));
    let job = GitJob {
        repo: repo.to_owned(),
        source,
        populate,
        listing: false,
        tasks,
        reports: Vec::new(),
        phase: Phase::Resolve,
    };
    assert(job@.tasks =~= seq![
        side_task(label@, baseline.0@, baseline.1@),
        side_task(label@, current.0@, current.1@),
    ]);
    assert(job@.reports =~= Seq::empty());
    job
}

/// A run with a branch: where it has none, the ref that was checked out.
fn run_with_branch(run: ScanRun<String>, ref_name: &str) -> (res: ScanRun<String>)
    ensures
        res@ == with_branch(run@, ref_name@),
{
    let git_branch = match run.git_branch {
        Some(branch) => Some(branch),
        None => Some(ref_name.to_owned()),
    };
    ScanRun { run_id: run.run_id, git_branch, has_html: run.has_html }
}

/// The phase in which the next ref is begun, or the end.
fn next_phase(scanned: usize, total: usize) -> (phase: Phase<String>)
    ensures
        phase@ == (if scanned < total {
            Phase::<Seq<char>>::Create
        } else {
            Phase::<Seq<char>>::Scanned
        }),
{
    if scanned < total {
        Phase::Create
    } else {
        Phase::Scanned
    }
}

impl GitJob {
    /// The operation that comes next; none once the job is finished.
    pub fn pending(&self) -> (action: Option<GitAction<String>>)
        requires
            self@.well_formed(),
        ensures
            action is Some <==> self@.pending() is Some,
            action is Some ==> action->0@ == self@.pending()->0,
            action is None <==> self@.finished(),
    {
        let k = self.reports.len();
        proof {
            if k < self.tasks@.len() {
                assert(self@.task() == self.tasks@[k as int]@);
            }
            if k > 0 {
                assert(self@.reports[k - 1] == self.reports@[k - 1]@);
                assert(self@.reports.last().git_branch is Some);
            }
        }
        match &self.phase {
            Phase::Resolve => match self.source {
                RepoSource::Local => Some(GitAction::OpenLocalRepo),
                RepoSource::Remote => Some(GitAction::CloneOrFetch { repo: self.repo.clone() }),
            },
            Phase::List => Some(GitAction::ListRefs { source: self.source }),
            Phase::Create => Some(
                GitAction::CreateWorktree {
                    ref_name: self.tasks[k].ref_name.clone(),
                    worktree: self.tasks[k].worktree.clone(),
                },
            ),
            Phase::Populate => Some(
                GitAction::PopulateSubmodules { worktree: self.tasks[k].worktree.clone() },
            ),
            Phase::Scan => Some(
                GitAction::ScanWorktree {
                    worktree: self.tasks[k].worktree.clone(),
                    label: self.tasks[k].label.clone(),
                },
            ),
            Phase::Destroy(_) => Some(
                GitAction::DestroyWorktree { worktree: self.tasks[k].worktree.clone() },
            ),
            Phase::Rewrite => match &self.reports[k - 1].git_branch {
                Some(branch) => Some(GitAction::RewriteReport { branch: branch.clone() }),
                None => None,
            },
            Phase::Listed(_) | Phase::Scanned | Phase::Failed(_) => None,
        }
    }

    /// The job once the outcome of the pending operation is known.
    pub fn resume(self, event: GitEvent<String>) -> (job: GitJob)
        requires
            self@.well_formed(),
            self@.pending() is Some,
            answers(self@.pending()->0, event@),
        ensures
            job@ == self@.after(event@),
            job@.well_formed(),
    {
        let ghost before = self@;
        let GitJob { repo, source, populate, listing, tasks, reports, phase } = self;
        let mut reports = reports;
        let k = reports.len();
        proof {
            if k < tasks@.len() {
                assert(before.task() == tasks@[k as int]@);
            }
        }
        let phase = match phase {
            Phase::Resolve => match event {
                GitEvent::Failed(e) => Phase::Failed(e),
                _ => if listing {
                    Phase::List
                } else {
                    next_phase(k, tasks.len())
                },
            },
            Phase::List => match event {
                GitEvent::Listed(text) => Phase::Listed(text),
                GitEvent::Failed(e) => Phase::Failed(e),
                _ => Phase::List,
            },
            Phase::Create => match event {
                GitEvent::Failed(e) => Phase::Failed(e),
                _ => if populate {
                    Phase::Populate
                } else {
                    Phase::Scan
                },
            },
            Phase::Populate => Phase::Scan,
            Phase::Scan => match event {
                GitEvent::Scanned(run) => Phase::Destroy(Ok(run)),
                GitEvent::Failed(e) => Phase::Destroy(Err(e)),
                _ => Phase::Scan,
            },
            Phase::Destroy(Err(e)) => Phase::Failed(e),
            Phase::Destroy(Ok(run)) => {
                let rewrite = run.git_branch.is_none() && run.has_html;
                let ghost found = run@;
                let ghost earlier = reports@;
                let reported = run_with_branch(run, &tasks[k].ref_name);
                reports.push(reported);
                proof {
                    assert(run_views(reports@) =~= run_views(earlier).push(
                        with_branch(found, before.task().ref_name),
                    ));
                }
                if rewrite {
                    Phase::Rewrite
                } else {
                    next_phase(reports.len(), tasks.len())
                }
            },
            Phase::Rewrite => next_phase(k, tasks.len()),
            Phase::Listed(text) => Phase::Listed(text),
            Phase::Scanned => Phase::Scanned,
            Phase::Failed(e) => Phase::Failed(e),
        };
        GitJob { repo, source, populate, listing, tasks, reports, phase }
    }

    /// What a finished job has to show for itself.
    pub fn finish(self) -> (output: Result<JobOutput, anyhow::Error>)
        requires
            self@.well_formed(),
            self@.finished(),
        ensures
            match self@.phase {
                Phase::Listed(text) => output is Ok && output->Ok_0@ == OutputView::Refs(text),
                Phase::Scanned => output is Ok && output->Ok_0@ == OutputView::Runs(self@.reports),
                Phase::Failed(e) => output == Err::<JobOutput, anyhow::Error>(e),
                _ => false,
            },
            output is Ok ==> self@.may_yield(output->Ok_0@),
    {
        match self.phase {
            Phase::Failed(e) => Err(e),
            Phase::Listed(text) => Ok(JobOutput::Refs(text)),
            _ => Ok(JobOutput::Runs(self.reports)),
        }
    }
}

} // verus!
