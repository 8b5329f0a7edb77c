use git_browser::api::{
    api_compare_refs, api_list_refs, api_scan_ref, begin_compare_refs, begin_scan_ref, ApiAction,
    ApiEvent, ApiSession, BadRequest, CompareRefsQuery, ScanRefQuery,
};
use git_browser::access::AccessQuestion;
use git_browser::job::{GitAction, GitEvent, GitJob, JobOutput, ScanRun};
use git_browser::log::{LogLevel, LogLine};
use git_browser::page::GitBrowserQuery;
use git_browser::policy::ServerPolicy;
use git_browser::reply::{Reply, TaskFailure};

fn s(text: &str) -> String {
    text.to_owned()
}

const LOCAL_MODE: ServerPolicy = ServerPolicy {
    server_mode: false,
    has_scan_roots: false,
    submodule_breakdown: true,
    host_allowlist: false,
};

const SERVER_MODE: ServerPolicy = ServerPolicy {
    server_mode: true,
    has_scan_roots: true,
    submodule_breakdown: true,
    host_allowlist: false,
};

fn scan_query(ref_name: &str, label: Option<&str>) -> ScanRefQuery {
    ScanRefQuery { repo: s("https://host/r.git"), ref_name: s(ref_name), label: label.map(s) }
}

fn compare_query(baseline: &str, current: &str) -> CompareRefsQuery {
    CompareRefsQuery {
        repo: s("https://host/r.git"),
        baseline_ref: s(baseline),
        current_ref: s(current),
        label: None,
    }
}

/// What a session had done, in words, and its answer; nothing is logged unless it
/// tells of a failure. Its questions are answered by `facts`; the work comes to
/// `done`.
fn serve(
    session: ApiSession,
    facts: (bool, bool, bool),
    done: impl Fn(GitJob) -> Result<JobOutput, TaskFailure>,
) -> (Vec<String>, Reply<String>) {
    let (course, reply, line) = serve_and_log(session, facts, done);
    assert_eq!(line.is_some(), reply.status == 502 || reply.status == 500);
    (course, reply)
}

/// The same, with what is logged.
fn serve_and_log(
    session: ApiSession,
    facts: (bool, bool, bool),
    done: impl Fn(GitJob) -> Result<JobOutput, TaskFailure>,
) -> (Vec<String>, Reply<String>, Option<LogLine>) {
    let mut session = session;
    let mut course = Vec::new();
    while let Some(action) = session.pending() {
        let event = match action {
            ApiAction::Ask(AccessQuestion::IsLocal { repo }) => {
                course.push(format!("is local {repo}"));
                ApiEvent::Answer(facts.0)
            }
            ApiAction::Ask(AccessQuestion::Resolves { path }) => {
                course.push(format!("resolves {path}"));
                ApiEvent::Answer(facts.1)
            }
            ApiAction::Ask(AccessQuestion::IsWithinRoots) => {
                course.push(s("is within roots"));
                ApiEvent::Answer(facts.2)
            }
            ApiAction::RunJob(job) => {
                course.push(s("job"));
                match done(job) {
                    Ok(output) => ApiEvent::JobDone(output),
                    Err(failure) => ApiEvent::JobFailed(failure),
                }
            }
            ApiAction::StoreArtifacts { leg, run_id } => {
                course.push(format!("store {leg} {run_id}"));
                ApiEvent::Done
            }
            ApiAction::RecordRun { leg, run_id, label } => {
                course.push(format!("record {leg} {run_id} {label}"));
                ApiEvent::Done
            }
        };
        session = session.resume(event);
    }
    assert!(course.len() <= 8);
    let (reply, line) = session.reply();
    (course, reply, line)
}

/// Carries a job out with nothing going wrong, and checks that git sees only
/// the given refs.
fn work(job: GitJob, refs: &[&str], submodules: bool) -> Result<JobOutput, TaskFailure> {
    let mut job = job;
    let mut seen = Vec::new();
    let mut populated = false;
    while let Some(action) = job.pending() {
        let event = match action {
            GitAction::CreateWorktree { ref_name, .. } => {
                seen.push(ref_name);
                GitEvent::Done
            }
            GitAction::PopulateSubmodules { .. } => {
                populated = true;
                GitEvent::Done
            }
            GitAction::ScanWorktree { .. } => GitEvent::Scanned(ScanRun {
                run_id: format!("id{}", seen.len()),
                git_branch: None,
                has_html: false,
            }),
            GitAction::ListRefs { .. } => GitEvent::Listed(s(r#"{"branches":[]}"#)),
            _ => GitEvent::Done,
        };
        job = job.resume(event);
    }
    assert_eq!(seen, refs);
    assert_eq!(populated, submodules);
    job.finish().map_err(TaskFailure::Git)
}

const REMOTE: (bool, bool, bool) = (false, false, false);

#[test]
fn list_needs_a_repository() {
    let session = api_list_refs(GitBrowserQuery { repo: None }, LOCAL_MODE);
    let (course, reply) = serve(session, REMOTE, |_| panic!("no job"));
    assert!(course.is_empty());
    assert_eq!(reply, Reply { status: 400, body: s(r#"{"error":"missing ?repo="}"#) });
}

#[test]
fn list_answers_with_the_refs() {
    let session = api_list_refs(GitBrowserQuery { repo: Some(s("u")) }, SERVER_MODE);
    let (course, reply) = serve(session, REMOTE, |job| work(job, &[], false));
    assert_eq!(course, vec!["is local u", "job"]);
    assert_eq!(reply, Reply { status: 200, body: s(r#"{"branches":[]}"#) });
}

#[test]
fn scan_of_an_invalid_ref_is_rejected_at_once() {
    for ref_name in ["", "--output=x", "a..b", "/a", "a b"] {
        let session = api_scan_ref(scan_query(ref_name, None), LOCAL_MODE);
        let (course, reply) = serve(session, REMOTE, |_| panic!("no job"));
        assert!(course.is_empty());
        assert_eq!(reply, Reply { status: 400, body: s(r#"{"error":"invalid ref_name"}"#) });
    }
}

#[test]
fn scan_is_registered_and_answered() {
    let session = begin_scan_ref(scan_query("feature/x", None), LOCAL_MODE, s("wt-1"));
    let (course, reply) = serve(session, REMOTE, |job| work(job, &["feature/x"], true));
    assert_eq!(
        course,
        vec![
            "is local https://host/r.git",
            "job",
            "store 0 id1",
            "record 0 id1 r_at_feature_x_sloc",
        ]
    );
    assert_eq!(reply.status, 200);
    assert_eq!(reply.body, r#"{"html_url":"/runs/html/id1","run_id":"id1"}"#);
}

#[test]
fn scan_goes_under_the_label_asked_for() {
    let session = api_scan_ref(scan_query("v1", Some("mine")), SERVER_MODE);
    let (course, _) = serve(session, REMOTE, |job| work(job, &["v1"], false));
    assert_eq!(course[3], "record 0 id1 mine");
}

#[test]
fn scan_outside_the_roots_is_forbidden() {
    let mut q = scan_query("v1", None);
    q.repo = s(" /etc ");
    let (course, reply) = serve(api_scan_ref(q, SERVER_MODE), (true, true, false), |_| {
        panic!("no job")
    });
    assert_eq!(course, vec!["is local  /etc ", "resolves /etc", "is within roots"]);
    assert_eq!(
        reply,
        Reply {
            status: 403,
            body: s(
                r#"{"error":"local repository path is not within an allowed scan directory"}"#
            ),
        }
    );
}

#[test]
fn failed_scan_is_not_registered() {
    let session = api_scan_ref(scan_query("v1", None), LOCAL_MODE);
    let (course, reply) = serve(session, REMOTE, |_| {
        Err(TaskFailure::Git(anyhow::Error::msg("timed out")))
    });
    assert_eq!(course, vec!["is local https://host/r.git", "job"]);
    assert_eq!(reply, Reply { status: 502, body: s(r#"{"error":"timed out"}"#) });
}

#[test]
fn panicked_scan_is_an_internal_error() {
    let session = api_scan_ref(scan_query("v1", None), LOCAL_MODE);
    let (_, reply) = serve(session, REMOTE, |_| Err(TaskFailure::Panicked(s("worker"))));
    assert_eq!(reply, Reply { status: 500, body: s(r#"{"error":"Internal server error"}"#) });
}

#[test]
fn failures_are_logged_under_the_name_of_the_work() {
    let sessions = || {
        [
            ("load_refs", api_list_refs(GitBrowserQuery { repo: Some(s("u")) }, LOCAL_MODE)),
            ("ref scan", api_scan_ref(scan_query("v1", None), LOCAL_MODE)),
            ("ref compare", api_compare_refs(compare_query("v1", "v2"), LOCAL_MODE)),
        ]
    };
    for (op, session) in sessions() {
        let (_, _, line) = serve_and_log(session, REMOTE, |_| {
            Err(TaskFailure::Git(anyhow::Error::msg("timed out").context("git fetch")))
        });
        let line = line.unwrap();
        assert_eq!(line.level, LogLevel::Warn);
        assert_eq!(line.event, "git_api_error");
        assert_eq!(line.message, format!("{op} failed: git fetch: timed out"));
    }
    for (op, session) in sessions() {
        let (_, _, line) =
            serve_and_log(session, REMOTE, |_| Err(TaskFailure::Panicked(s("worker"))));
        let line = line.unwrap();
        assert_eq!(line.level, LogLevel::Error);
        assert_eq!(line.event, "git_task_panic");
        assert_eq!(line.message, format!("{op} task panicked: worker"));
    }
}

#[test]
fn scan_of_a_ref_beyond_ascii() {
    let session = api_scan_ref(scan_query("caf\u{e9}", None), LOCAL_MODE);
    let (course, reply) = serve(session, REMOTE, |job| work(job, &["caf\u{e9}"], true));
    assert_eq!(reply.status, 200);
    assert!(course.contains(&s("record 0 id1 r_at_caf\u{e9}_sloc")));
}

#[test]
fn comparison_with_an_invalid_ref_is_rejected_at_once() {
    for (a, b) in [("a..b", "main"), ("main", "a..b"), ("-a", "-b")] {
        let session = api_compare_refs(compare_query(a, b), LOCAL_MODE);
        let (course, reply) = serve(session, REMOTE, |_| panic!("no job"));
        assert!(course.is_empty());
        assert_eq!(reply, Reply { status: 400, body: s(r#"{"error":"invalid ref name"}"#) });
    }
}

#[test]
fn comparison_registers_both_runs_and_answers() {
    let session =
        begin_compare_refs(compare_query("v1", "v2"), LOCAL_MODE, s("wt-a"), s("wt-b"));
    let (course, reply) = serve(session, (true, true, false), |job| work(job, &["v1", "v2"], true));
    assert_eq!(
        course,
        vec![
            "is local https://host/r.git",
            "resolves https://host/r.git",
            "job",
            "store 0 id1",
            "record 0 id1 r_at_compare_sloc (v1)",
            "store 1 id2",
            "record 1 id2 r_at_compare_sloc (v2)",
        ]
    );
    assert_eq!(reply.status, 200);
    assert_eq!(
        reply.body,
        r#"{"baseline_run_id":"id1","compare_url":"/compare?a=id1&b=id2","current_run_id":"id2"}"#
    );
}

#[test]
fn bad_requests_have_their_messages() {
    assert_eq!(BadRequest::MissingRepo.message(), "missing ?repo=");
    assert_eq!(BadRequest::InvalidRefName.message(), "invalid ref_name");
    assert_eq!(BadRequest::InvalidComparedRef.message(), "invalid ref name");
}
