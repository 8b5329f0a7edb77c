//! The HTTP API: listing the refs of a repository, scanning one of them, and
//! comparing two.
//!
//! Each request is a session. It says what is to be done next; its owner does
//! it and says what came of it, until the session has an answer.

use vstd::prelude::*;
use vstd::string::*;

use crate::access::{
    access_next, access_question, resolve_local_repo, AccessQuestion, AccessRefusal, AccessState,
    RepoSource,
};
use crate::job::{
    load_refs, new_job, option_view, run_compare_refs, run_ref_scan, run_views, side_task, GitJob,
    JobOutput, JobView, OutputView, RefTask, ScanRun,
};
use crate::json::field_views;
use crate::label::{make_label, make_side_label, scan_label};
use crate::log::LogLine;
use crate::page::GitBrowserQuery;
use crate::policy::{populates_submodules, should_populate_submodules, ServerPolicy};
use crate::refname::{is_valid_git_ref, valid_git_ref};
use crate::reply::{
    error_reply, failure_logged, failure_reply, fields_reply, git_task_error_response, json_error,
    json_reply, Reply, TaskFailure, STATUS_BAD_REQUEST, STATUS_FORBIDDEN, STATUS_OK,
};
use crate::worktree::{fresh_worktree_name, is_worktree_name};

verus! {

/// A request to scan a ref.
#[derive(Debug)]
pub struct ScanRefQuery {
    pub repo: String,
    pub ref_name: String,
    pub label: Option<String>,
}

/// A request to compare two refs.
#[derive(Debug)]
pub struct CompareRefsQuery {
    pub repo: String,
    pub baseline_ref: String,
    pub current_ref: String,
    pub label: Option<String>,
}

/// What is wrong with a request.
#[derive(Clone, Copy, Debug, PartialEq, Eq, Structural)]
pub enum BadRequest {
    MissingRepo,
    InvalidRefName,
    InvalidComparedRef,
}

impl BadRequest {
    /// The message for the client.
    pub open spec fn text(self) -> Seq<char> {
        match self {
            BadRequest::MissingRepo => "missing ?repo="@,
            BadRequest::InvalidRefName => "invalid ref_name"@,
            BadRequest::InvalidComparedRef => "invalid ref name"@,
        }
    }

    /// The message for the client.
    pub fn message(&self) -> (msg: &'static str)
        ensures
            msg@ == self.text(),
    {
        match self {
            BadRequest::MissingRepo => "missing ?repo=",
            BadRequest::InvalidRefName => "invalid ref_name",
            BadRequest::InvalidComparedRef => "invalid ref name",
        }
    }
}

/// A ref to compare, and the worktree it is checked out into. Here and below
/// `S` is `String`; in contracts it is the sequence of the characters.
pub struct Side<S> {
    pub ref_name: S,
    pub worktree: S,
}

/// What a session is to do with its repository.
pub enum Request<S> {
    List,
    Scan(RefTask<S>),
    Compare { label: S, baseline: Side<S>, current: Side<S> },
}

impl View for Side<String> {
    type V = Side<Seq<char>>;

    open spec fn view(&self) -> Side<Seq<char>> {
        Side { ref_name: self.ref_name@, worktree: self.worktree@ }
    }
}

impl View for Request<String> {
    type V = Request<Seq<char>>;

    open spec fn view(&self) -> Request<Seq<char>> {
        match self {
            Request::List => Request::List,
            Request::Scan(task) => Request::Scan(task@),
            Request::Compare { label, baseline, current } => Request::Compare {
                label: label@,
                baseline: baseline@,
                current: current@,
            },
        }
    }
}

impl Request<Seq<char>> {
    /// What the log calls the work.
    pub open spec fn op(self) -> Seq<char> {
        match self {
            Request::List => "load_refs"@,
            Request::Scan(_) => "ref scan"@,
            Request::Compare { .. } => "ref compare"@,
        }
    }

    /// The refs to scan, in their order, with the labels that their runs are
    /// registered under.
    pub open spec fn tasks(self) -> Seq<RefTask<Seq<char>>> {
        match self {
            Request::List => Seq::empty(),
            Request::Scan(task) => seq![task],
            Request::Compare { label, baseline, current } => seq![
                side_task(label, baseline.ref_name, baseline.worktree),
                side_task(label, current.ref_name, current.worktree),
            ],
        }
    }
}

/// How a session ended.
pub enum Outcome<S> {
    /// The request makes no sense.
    Rejected(BadRequest),
    /// The request names a local repository that is out of reach.
    Refused(AccessRefusal),
    /// The work failed.
    Failed(TaskFailure),
    /// The refs are listed; this is the list as JSON.
    Listed(S),
    /// The scans are run and registered.
    Registered,
}

/// How far a session has come.
pub enum Stage<S> {
    /// It is being found out whether the repository may be reached.
    Access(AccessState),
    /// The work on the repository is going on.
    Work(RepoSource),
    /// The artifacts of a run are being stored.
    Store(usize),
    /// A run is being entered into the registry.
    Record(usize),
    /// The session has an answer.
    Ended(Outcome<S>),
}

impl View for Outcome<String> {
    type V = Outcome<Seq<char>>;

    open spec fn view(&self) -> Outcome<Seq<char>> {
        match self {
            Outcome::Rejected(problem) => Outcome::Rejected(*problem),
            Outcome::Refused(refusal) => Outcome::Refused(*refusal),
            Outcome::Failed(failure) => Outcome::Failed(*failure),
            Outcome::Listed(text) => Outcome::Listed(text@),
            Outcome::Registered => Outcome::Registered,
        }
    }
}

impl View for Stage<String> {
    type V = Stage<Seq<char>>;

    open spec fn view(&self) -> Stage<Seq<char>> {
        match self {
            Stage::Access(access) => Stage::Access(*access),
            Stage::Work(source) => Stage::Work(*source),
            Stage::Store(leg) => Stage::Store(*leg),
            Stage::Record(leg) => Stage::Record(*leg),
            Stage::Ended(outcome) => Stage::Ended(outcome@),
        }
    }
}

/// What a session wants done. `J` is `GitJob`; in contracts it is `JobView`.
pub enum ApiAction<S, J> {
    /// Answer a question about access.
    Ask(AccessQuestion<S>),
    /// Carry out a job.
    RunJob(J),
    /// Store the artifacts of the run of the given ref under its id.
    StoreArtifacts { leg: usize, run_id: S },
    /// Enter the run of the given ref into the registry under a label, and save
    /// the registry.
    RecordRun { leg: usize, run_id: S, label: S },
}

impl View for ApiAction<String, GitJob> {
    type V = ApiAction<Seq<char>, JobView>;

    open spec fn view(&self) -> ApiAction<Seq<char>, JobView> {
        match self {
            ApiAction::Ask(question) => ApiAction::Ask(question@),
            ApiAction::RunJob(job) => ApiAction::RunJob(job@),
            ApiAction::StoreArtifacts { leg, run_id } => ApiAction::StoreArtifacts {
                leg: *leg,
                run_id: run_id@,
            },
            ApiAction::RecordRun { leg, run_id, label } => ApiAction::RecordRun {
                leg: *leg,
                run_id: run_id@,
                label: label@,
            },
        }
    }
}

/// What came of it. `O` is `JobOutput`; in contracts it is `OutputView`.
pub enum ApiEvent<O> {
    /// The answer to a question.
    Answer(bool),
    /// The job is done.
    JobDone(O),
    /// The job failed.
    JobFailed(TaskFailure),
    /// It is stored, or recorded.
    Done,
}

impl View for ApiEvent<JobOutput> {
    type V = ApiEvent<OutputView>;

    open spec fn view(&self) -> ApiEvent<OutputView> {
        match self {
            ApiEvent::Answer(yes) => ApiEvent::Answer(*yes),
            ApiEvent::JobDone(output) => ApiEvent::JobDone(output@),
            ApiEvent::JobFailed(failure) => ApiEvent::JobFailed(*failure),
            ApiEvent::Done => ApiEvent::Done,
        }
    }
}

/// Can `event` come of `action`?
pub open spec fn settles(
    action: ApiAction<Seq<char>, JobView>,
    event: ApiEvent<OutputView>,
) -> bool {
    match action {
        ApiAction::Ask(_) => event is Answer,
        ApiAction::RunJob(job) => match event {
            ApiEvent::JobDone(output) => job.may_yield(output),
            ApiEvent::JobFailed(_) => true,
            _ => false,
        },
        ApiAction::StoreArtifacts { .. } => event is Done,
        ApiAction::RecordRun { .. } => event is Done,
    }
}

/// A session, for contracts.
pub struct SessionView {
    pub policy: ServerPolicy,
    pub repo: Seq<char>,
    pub request: Request<Seq<char>>,
    /// The runs of the job, once it is done.
    pub runs: Seq<ScanRun<Seq<char>>>,
    pub stage: Stage<Seq<char>>,
}

impl SessionView {
    /// The same session at another stage.
    pub open spec fn at(self, stage: Stage<Seq<char>>) -> SessionView {
        SessionView { stage, ..self }
    }

    /// The job of the session, for a repository from the given source.
    pub open spec fn job(self, source: RepoSource) -> JobView {
        new_job(
            self.repo,
            source,
            !(self.request is List) && populates_submodules(self.policy),
            self.request is List,
            self.request.tasks(),
        )
    }

    /// What a session always is.
    pub open spec fn well_formed(self) -> bool {
        match self.stage {
            Stage::Access(access) => !(access is Decided),
            Stage::Work(_) => true,
            Stage::Store(leg) | Stage::Record(leg) => {
                &&& leg < self.runs.len()
                &&& self.runs.len() == self.request.tasks().len()
            },
            Stage::Ended(Outcome::Registered) => {
                &&& !(self.request is List)
                &&& self.runs.len() == self.request.tasks().len()
            },
            Stage::Ended(_) => true,
        }
    }

    /// What is to be done next; nothing once the session has ended.
    pub open spec fn pending(self) -> Option<ApiAction<Seq<char>, JobView>> {
        match self.stage {
            Stage::Access(access) => match access_question(access, self.repo) {
                Some(question) => Some(ApiAction::Ask(question)),
                None => None,
            },
            Stage::Work(source) => Some(ApiAction::RunJob(self.job(source))),
            Stage::Store(leg) => Some(
                ApiAction::StoreArtifacts { leg, run_id: self.runs[leg as int].run_id },
            ),
            Stage::Record(leg) => Some(
                ApiAction::RecordRun {
                    leg,
                    run_id: self.runs[leg as int].run_id,
                    label: self.request.tasks()[leg as int].label,
                },
            ),
            Stage::Ended(_) => None,
        }
    }

    /// The session once what was pending is done.
    pub open spec fn after(self, event: ApiEvent<OutputView>) -> SessionView {
        match (self.stage, event) {
            (Stage::Access(access), ApiEvent::Answer(yes)) => match access_next(
                access,
                self.policy,
                yes,
            ) {
                AccessState::Decided(Ok(source)) => self.at(Stage::Work(source)),
                AccessState::Decided(Err(refusal)) => self.at(Stage::Ended(Outcome::Refused(refusal))),
                next => self.at(Stage::Access(next)),
            },
            (Stage::Work(_), ApiEvent::JobFailed(failure)) => self.at(
                Stage::Ended(Outcome::Failed(failure)),
            ),
            (Stage::Work(_), ApiEvent::JobDone(OutputView::Refs(text))) => self.at(
                Stage::Ended(Outcome::Listed(text)),
            ),
            (Stage::Work(_), ApiEvent::JobDone(OutputView::Runs(runs))) => SessionView {
                runs,
                stage: Stage::Store(0),
                ..self
            },
            (Stage::Store(leg), _) => self.at(Stage::Record(leg)),
            (Stage::Record(leg), _) => self.at(
                if leg + 1 < self.runs.len() {
                    Stage::Store((leg + 1) as usize)
                } else {
                    Stage::Ended(Outcome::Registered)
                },
            ),
            _ => self,
        }
    }

    /// Is `reply` the answer of the session?
    pub open spec fn answers_with(self, reply: Reply<Seq<char>>) -> bool {
        match self.stage {
            Stage::Ended(Outcome::Rejected(problem)) => reply == error_reply(
                STATUS_BAD_REQUEST,
                problem.text(),
            ),
            Stage::Ended(Outcome::Refused(refusal)) => reply == error_reply(
                STATUS_FORBIDDEN,
                refusal.text(),
            ),
            Stage::Ended(Outcome::Failed(failure)) => failure_reply(failure, reply),
            Stage::Ended(Outcome::Listed(text)) => reply == (Reply {
                status: STATUS_OK,
                body: text,
            }),
            Stage::Ended(Outcome::Registered) => match self.request {
                Request::List => false,
                Request::Scan(_) => reply == scan_reply(self.runs[0].run_id),
                Request::Compare { .. } => reply == compare_reply(
                    self.runs[0].run_id,
                    self.runs[1].run_id,
                ),
            },
            _ => false,
        }
    }

    /// Is `line` what is logged along with the answer? Something is logged where
    /// the work failed, and only there.
    pub open spec fn logs(self, line: Option<LogLine>) -> bool {
        match self.stage {
            Stage::Ended(Outcome::Failed(failure)) => line is Some && failure_logged(
                self.request.op(),
                failure,
                line->0,
            ),
            _ => line is None,
        }
    }
}

/// The answer to a scan: the run, and where its report is.
pub open spec fn scan_reply(run_id: Seq<char>) -> Reply<Seq<char>> {
    fields_reply(
        STATUS_OK,
        seq![("html_url"@, "/runs/html/"@ + run_id), ("run_id"@, run_id)],
    )
}

/// The answer to a comparison: the two runs, and where they are compared.
pub open spec fn compare_reply(baseline: Seq<char>, current: Seq<char>) -> Reply<Seq<char>> {
    fields_reply(
        STATUS_OK,
        seq![
            ("baseline_run_id"@, baseline),
            ("compare_url"@, "/compare?a="@ + baseline + "&b="@ + current),
            ("current_run_id"@, current),
        ],
    )
}

/// A request to the API, being served.
pub struct ApiSession {
    policy: ServerPolicy,
    repo: String,
    request: Request<String>,
    runs: Vec<ScanRun<String>>,
    stage: Stage<String>,
}

impl View for ApiSession {
    type V = SessionView;

    closed spec fn view(&self) -> SessionView {
        SessionView {
            policy: self.policy,
            repo: self.repo@,
            request: self.request@,
            runs: run_views(self.runs@),
            stage: self.stage@,
        }
    }
}

/// A session that has just begun.
pub open spec fn new_session(
    policy: ServerPolicy,
    repo: Seq<char>,
    request: Request<Seq<char>>,
    stage: Stage<Seq<char>>,
) -> SessionView {
    SessionView { policy, repo, request, runs: Seq::empty(), stage }
}

/// The label that a request asks for, or else the one made of its repository
/// and the given name.
pub open spec fn requested_label(
    label: Option<Seq<char>>,
    repo: Seq<char>,
    name: Seq<char>,
) -> Seq<char> {
    match label {
        Some(label) => label,
        None => scan_label(repo, name),
    }
}

/// The label that a request asks for, or else the one made of its repository
/// and the given name.
fn label_or_default(label: Option<String>, repo: &str, name: &str) -> (res: String)
    ensures
        res@ == requested_label(option_view(label), repo@, name@),
{
    match label {
        Some(label) => label,
        None => make_label(repo, name),
    }
}

/// The session of a request to list refs. It takes a repository.
pub open spec fn list_session(repo: Option<Seq<char>>, policy: ServerPolicy) -> SessionView {
    match repo {
        Some(repo) => new_session(policy, repo, Request::List, Stage::Access(AccessState::AskLocal)),
        None => new_session(
            policy,
            Seq::empty(),
            Request::List,
            Stage::Ended(Outcome::Rejected(BadRequest::MissingRepo)),
        ),
    }
}

/// The session of a request to scan a ref. It takes an accepted ref name.
pub open spec fn scan_session(
    q: ScanRefQuery,
    policy: ServerPolicy,
    worktree: Seq<char>,
) -> SessionView {
    new_session(
        policy,
        q.repo@,
        Request::Scan(
            RefTask {
                ref_name: q.ref_name@,
                label: requested_label(option_view(q.label), q.repo@, q.ref_name@),
                worktree,
            },
        ),
        if valid_git_ref(q.ref_name@) {
            Stage::Access(AccessState::AskLocal)
        } else {
            Stage::Ended(Outcome::Rejected(BadRequest::InvalidRefName))
        },
    )
}

/// The session of a request to compare two refs. It takes two accepted ref
/// names.
pub open spec fn compare_session(
    q: CompareRefsQuery,
    policy: ServerPolicy,
    baseline: Seq<char>,
    current: Seq<char>,
) -> SessionView {
    new_session(
        policy,
        q.repo@,
        Request::Compare {
            label: requested_label(option_view(q.label), q.repo@, "compare"@),
            baseline: Side { ref_name: q.baseline_ref@, worktree: baseline },
            current: Side { ref_name: q.current_ref@, worktree: current },
        },
        if valid_git_ref(q.baseline_ref@) && valid_git_ref(q.current_ref@) {
            Stage::Access(AccessState::AskLocal)
        } else {
            Stage::Ended(Outcome::Rejected(BadRequest::InvalidComparedRef))
        },
    )
}

/// List the refs of a repository.
pub fn api_list_refs(q: GitBrowserQuery, policy: ServerPolicy) -> (session: ApiSession)
    ensures
        session@ == list_session(option_view(q.repo), policy),
        session@.well_formed(),
{
    let (repo, stage) = match q.repo {
        Some(repo) => (repo, Stage::Access(resolve_local_repo())),
        None => (String::new(), Stage::Ended(Outcome::Rejected(BadRequest::MissingRepo))),
    };
    let session = ApiSession { policy, repo, request: Request::List, runs: Vec::new(), stage };
    assert(session@.runs =~= Seq::empty());
    session
}

/// Scan a ref, in the given worktree.
pub fn begin_scan_ref(q: ScanRefQuery, policy: ServerPolicy, worktree: String) -> (session:
    ApiSession)
    ensures
        session@ == scan_session(q, policy, worktree@),
        session@.well_formed(),
{
    let stage = if is_valid_git_ref(&q.ref_name) {
        Stage::Access(resolve_local_repo())
    } else {
        Stage::Ended(Outcome::Rejected(BadRequest::InvalidRefName))
    };
    let label = label_or_default(q.label, &q.repo, &q.ref_name);
    let request = Request::Scan(RefTask { ref_name: q.ref_name, label, worktree });
    let session = ApiSession { policy, repo: q.repo, request, runs: Vec::new(), stage };
    assert(session@.runs =~= Seq::empty());
    session
}

/// Scan a ref.
pub fn api_scan_ref(q: ScanRefQuery, policy: ServerPolicy) -> (session: ApiSession)
    ensures
        exists|worktree: Seq<char>| #[trigger]
            is_worktree_name(worktree) && session@ == scan_session(q, policy, worktree),
        session@.well_formed(),
{
    let worktree = fresh_worktree_name();
    begin_scan_ref(q, policy, worktree)
}

/// Compare two refs, in the given worktrees.
pub fn begin_compare_refs(
    q: CompareRefsQuery,
    policy: ServerPolicy,
    baseline: String,
    current: String,
) -> (session: ApiSession)
    ensures
        session@ == compare_session(q, policy, baseline@, current@),
        session@.well_formed(),
{
    let stage = if is_valid_git_ref(&q.baseline_ref) && is_valid_git_ref(&q.current_ref) {
        Stage::Access(resolve_local_repo())
    } else {
        Stage::Ended(Outcome::Rejected(BadRequest::InvalidComparedRef))
    };
    let label = label_or_default(q.label, &q.repo, "compare");
    let request = Request::Compare {
        label,
        baseline: Side { ref_name: q.baseline_ref, worktree: baseline },
        current: Side { ref_name: q.current_ref, worktree: current },
    };
    let session = ApiSession { policy, repo: q.repo, request, runs: Vec::new(), stage };
    assert(session@.runs =~= Seq::empty());
    session
}

/// Compare two refs.
pub fn api_compare_refs(q: CompareRefsQuery, policy: ServerPolicy) -> (session: ApiSession)
    ensures
        exists|baseline: Seq<char>, current: Seq<char>| #[trigger]
            is_worktree_name(baseline) && #[trigger] is_worktree_name(current) && session@
                == compare_session(q, policy, baseline, current),
        session@.well_formed(),
{
    let baseline = fresh_worktree_name();
    let current = fresh_worktree_name();
    begin_compare_refs(q, policy, baseline, current)
}

impl Request<String> {
    /// What the log calls the work.
    fn op_name(&self) -> (op: &'static str)
        ensures
            op@ == self@.op(),
    {
        match self {
            Request::List => "load_refs",
            Request::Scan(_) => "ref scan",
            Request::Compare { .. } => "ref compare",
        }
    }

    /// The label that the run of the given ref is registered under.
    fn label_of(&self, leg: usize) -> (label: String)
        requires
            leg < self@.tasks().len(),
        ensures
            label@ == self@.tasks()[leg as int].label,
    {
        match self {
            Request::List => String::new(),
            Request::Scan(task) => task.label.clone(),
            Request::Compare { label, baseline, current } => if leg == 0 {
                make_side_label(label, &baseline.ref_name)
            } else {
                make_side_label(label, &current.ref_name)
            },
        }
    }
}

/// The answer to a scan: the run, and where its report is.
fn make_scan_reply(run_id: &str) -> (reply: Reply<String>)
    ensures
        reply@ == scan_reply(run_id@),
{
    let mut html_url = String::new();
    html_url.append("/runs/html/");
    html_url.append(run_id);
    assert(html_url@ =~= "/runs/html/"@ + run_id@);
    let mut fields: Vec<(String, String)> = Vec::new();
    fields.push(("html_url".to_owned(), html_url));
    fields.push(("run_id".to_owned(), run_id.to_owned()));
    assert(field_views(fields@) =~= seq![
        ("html_url"@, "/runs/html/"@ + run_id@),
        ("run_id"@, run_id@),
    ]);
    json_reply(STATUS_OK, fields)
}

/// The answer to a comparison: the two runs, and where they are compared.
fn make_compare_reply(baseline: &str, current: &str) -> (reply: Reply<String>)
    ensures
        reply@ == compare_reply(baseline@, current@),
{
    let mut url = String::new();
    url.append("/compare?a=");
    url.append(baseline);
    url.append("&b=");
    url.append(current);
    assert(url@ =~= "/compare?a="@ + baseline@ + "&b="@ + current@);
    let mut fields: Vec<(String, String)> = Vec::new();
    fields.push(("baseline_run_id".to_owned(), baseline.to_owned()));
    fields.push(("compare_url".to_owned(), url));
    fields.push(("current_run_id".to_owned(), current.to_owned()));
    assert(field_views(fields@) =~= seq![
        ("baseline_run_id"@, baseline@),
        ("compare_url"@, "/compare?a="@ + baseline@ + "&b="@ + current@),
        ("current_run_id"@, current@),
    ]);
    json_reply(STATUS_OK, fields)
}

impl ApiSession {
    /// What is to be done next; nothing once the session has ended.
    pub fn pending(&self) -> (action: Option<ApiAction<String, GitJob>>)
        requires
            self@.well_formed(),
        ensures
            action is Some <==> self@.pending() is Some,
            action is Some ==> action->0@ == self@.pending()->0,
            action is None <==> self@.stage is Ended,
            action matches Some(ApiAction::RunJob(job)) ==> job@.well_formed(),
    {
        match &self.stage {
            Stage::Access(access) => match access.question(&self.repo) {
                Some(question) => Some(ApiAction::Ask(question)),
                None => None,
            },
            Stage::Work(source) => {
                let populate = should_populate_submodules(&self.policy);
                let job = match &self.request {
                    Request::List => load_refs(&self.repo, *source),
                    Request::Scan(task) => run_ref_scan(
                        &self.repo,
                        *source,
                        populate,
                        RefTask {
                            ref_name: task.ref_name.clone(),
                            label: task.label.clone(),
                            worktree: task.worktree.clone(),
                        },
                    ),
                    Request::Compare { label, baseline, current } => run_compare_refs(
                        &self.repo,
                        *source,
                        populate,
                        label,
                        (&baseline.ref_name, &baseline.worktree),
                        (&current.ref_name, &current.worktree),
                    ),
                };
                Some(ApiAction::RunJob(job))
            },
            Stage::Store(leg) => {
                assert(self@.runs[*leg as int] == self.runs@[*leg as int]@);
                Some(
                    ApiAction::StoreArtifacts {
                        leg: *leg,
                        run_id: self.runs[*leg].run_id.clone(),
                    },
                )
            },
            Stage::Record(leg) => {
                assert(self@.runs[*leg as int] == self.runs@[*leg as int]@);
                Some(
                    ApiAction::RecordRun {
                        leg: *leg,
                        run_id: self.runs[*leg].run_id.clone(),
                        label: self.request.label_of(*leg),
                    },
                )
            },
            Stage::Ended(_) => None,
        }
    }

    /// The session once what was pending is done.
    pub fn resume(self, event: ApiEvent<JobOutput>) -> (session: ApiSession)
        requires
            self@.well_formed(),
            self@.pending() is Some,
            settles(self@.pending()->0, event@),
        ensures
            session@ == self@.after(event@),
            session@.well_formed(),
    {
        let ApiSession { policy, repo, request, runs, stage } = self;
        let (runs, stage) = match (stage, event) {
            (Stage::Access(access), ApiEvent::Answer(yes)) => {
                let stage = match access.answered(&policy, yes) {
                    AccessState::Decided(Ok(source)) => Stage::Work(source),
                    AccessState::Decided(Err(refusal)) => Stage::Ended(Outcome::Refused(refusal)),
                    next => Stage::Access(next),
                };
                (runs, stage)
            },
            (Stage::Work(_), ApiEvent::JobFailed(failure)) => (
                runs,
                Stage::Ended(Outcome::Failed(failure)),
            ),
            (Stage::Work(_), ApiEvent::JobDone(JobOutput::Refs(text))) => (
                runs,
                Stage::Ended(Outcome::Listed(text)),
            ),
            (Stage::Work(_), ApiEvent::JobDone(JobOutput::Runs(done))) => (done, Stage::Store(0)),
            (Stage::Store(leg), _) => (runs, Stage::Record(leg)),
            (Stage::Record(leg), _) => {
                let stage = if leg + 1 < runs.len() {
                    Stage::Store(leg + 1)
                } else {
                    Stage::Ended(Outcome::Registered)
                };
                (runs, stage)
            },
            (stage, _) => (runs, stage),
        };
        ApiSession { policy, repo, request, runs, stage }
    }

    /// The answer of a session that has ended, and what is to be logged along
    /// with it.
    pub fn reply(self) -> (answer: (Reply<String>, Option<LogLine>))
        requires
            self@.well_formed(),
            self@.stage is Ended,
        ensures
            self@.answers_with(answer.0@),
            self@.logs(answer.1),
    {
        let reply = match self.stage {
            Stage::Ended(Outcome::Failed(failure)) => {
                let (reply, line) = git_task_error_response(&failure, self.request.op_name());
                return (reply, Some(line));
            },
            Stage::Ended(Outcome::Rejected(problem)) => json_error(
                STATUS_BAD_REQUEST,
                problem.message(),
            ),
            Stage::Ended(Outcome::Refused(refusal)) => json_error(
                STATUS_FORBIDDEN,
                refusal.message(),
            ),
            Stage::Ended(Outcome::Listed(text)) => Reply { status: STATUS_OK, body: text },
            _ => {
                assert(self@.runs[0] == self.runs@[0]@);
                match self.request {
                    Request::Compare { .. } => {
                        assert(self@.runs[1] == self.runs@[1]@);
                        make_compare_reply(&self.runs[0].run_id, &self.runs[1].run_id)
                    },
                    _ => make_scan_reply(&self.runs[0].run_id),
                }
            },
        };
        (reply, None)
    }
}

} // verus!
