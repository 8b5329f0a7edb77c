use git_browser::access::RepoSource;
use git_browser::job::{
    load_refs, run_compare_refs, run_ref_scan, GitAction, GitEvent, GitJob, JobOutput, RefTask,
    ScanRun,
};
use git_browser::log::LogLevel;
use git_browser::submodules::populate_worktree_submodules;
use git_browser::worktree::{fresh_worktree_name, worktree_name};

fn s(text: &str) -> String {
    text.to_owned()
}

fn error(text: &str) -> anyhow::Error {
    anyhow::Error::msg(s(text))
}

fn run(id: &str, branch: Option<&str>, has_html: bool) -> ScanRun<String> {
    ScanRun { run_id: s(id), git_branch: branch.map(s), has_html }
}

/// Runs a job against a world that answers each of its operations.
fn play(
    job: GitJob,
    mut world: impl FnMut(&GitAction<String>) -> GitEvent<String>,
) -> (Vec<GitAction<String>>, Result<JobOutput, String>) {
    let mut job = job;
    let mut actions = Vec::new();
    while let Some(action) = job.pending() {
        let event = world(&action);
        actions.push(action);
        job = job.resume(event);
    }
    (actions, job.finish().map_err(|e| e.to_string()))
}

fn scan_job(source: RepoSource, populate: bool) -> GitJob {
    let task = RefTask { ref_name: s("v1.0"), label: s("label"), worktree: s("wt-1") };
    run_ref_scan("https://host/r.git", source, populate, task)
}

fn compare_job() -> GitJob {
    run_compare_refs("https://host/r", RepoSource::Remote, false, "L", ("a", "wt-a"), ("b", "wt-b"))
}

fn clone() -> GitAction<String> {
    GitAction::CloneOrFetch { repo: s("https://host/r.git") }
}

fn create() -> GitAction<String> {
    GitAction::CreateWorktree { ref_name: s("v1.0"), worktree: s("wt-1") }
}

fn scan() -> GitAction<String> {
    GitAction::ScanWorktree { worktree: s("wt-1"), label: s("label") }
}

fn destroy() -> GitAction<String> {
    GitAction::DestroyWorktree { worktree: s("wt-1") }
}

#[test]
fn scan_of_a_branch() {
    let (actions, output) = play(scan_job(RepoSource::Remote, false), |action| match action {
        GitAction::ScanWorktree { .. } => GitEvent::Scanned(run("r1", Some("main"), true)),
        _ => GitEvent::Done,
    });
    assert_eq!(actions, vec![clone(), create(), scan(), destroy()]);
    assert_eq!(output, Ok(JobOutput::Runs(vec![run("r1", Some("main"), true)])));
}

#[test]
fn scan_of_a_tag_takes_the_ref_for_its_branch() {
    let (actions, output) = play(scan_job(RepoSource::Local, true), |action| match action {
        GitAction::ScanWorktree { .. } => GitEvent::Scanned(run("r1", None, true)),
        _ => GitEvent::Done,
    });
    let populate = GitAction::PopulateSubmodules { worktree: s("wt-1") };
    let rewrite = GitAction::RewriteReport { branch: s("v1.0") };
    assert_eq!(
        actions,
        vec![GitAction::OpenLocalRepo, create(), populate, scan(), destroy(), rewrite]
    );
    assert_eq!(output, Ok(JobOutput::Runs(vec![run("r1", Some("v1.0"), true)])));
}

#[test]
fn scan_without_a_report_rewrites_none() {
    let (actions, output) = play(scan_job(RepoSource::Remote, false), |action| match action {
        GitAction::ScanWorktree { .. } => GitEvent::Scanned(run("r1", None, false)),
        _ => GitEvent::Done,
    });
    assert_eq!(actions, vec![clone(), create(), scan(), destroy()]);
    assert_eq!(output, Ok(JobOutput::Runs(vec![run("r1", Some("v1.0"), false)])));
}

#[test]
fn failed_scan_still_removes_its_worktree() {
    let (actions, output) = play(scan_job(RepoSource::Remote, false), |action| match action {
        GitAction::ScanWorktree { .. } => GitEvent::Failed(error("no scan")),
        _ => GitEvent::Done,
    });
    assert_eq!(actions, vec![clone(), create(), scan(), destroy()]);
    assert_eq!(output, Err(s("no scan")));
}

#[test]
fn failed_checkout_has_nothing_to_remove() {
    let (actions, output) = play(scan_job(RepoSource::Remote, true), |action| match action {
        GitAction::CreateWorktree { .. } => GitEvent::Failed(error("no ref")),
        _ => GitEvent::Done,
    });
    assert_eq!(actions, vec![clone(), create()]);
    assert_eq!(output, Err(s("no ref")));
}

#[test]
fn failed_clone_ends_the_job() {
    let (actions, output) = play(compare_job(), |_| GitEvent::Failed(error("no host")));
    assert_eq!(actions, vec![GitAction::CloneOrFetch { repo: s("https://host/r") }]);
    assert_eq!(output, Err(s("no host")));
}

#[test]
fn best_effort_operations_may_fail() {
    let (actions, output) = play(scan_job(RepoSource::Remote, true), |action| match action {
        GitAction::ScanWorktree { .. } => GitEvent::Scanned(run("r1", None, true)),
        GitAction::PopulateSubmodules { .. }
        | GitAction::DestroyWorktree { .. }
        | GitAction::RewriteReport { .. } => GitEvent::Failed(error("ignored")),
        _ => GitEvent::Done,
    });
    assert_eq!(actions.len(), 6);
    assert_eq!(output, Ok(JobOutput::Runs(vec![run("r1", Some("v1.0"), true)])));
}

#[test]
fn comparison_scans_the_baseline_then_the_current_ref() {
    let mut runs = vec![run("r2", Some("main"), true), run("r1", None, false)];
    let (actions, output) = play(compare_job(), |action| match action {
        GitAction::ScanWorktree { .. } => GitEvent::Scanned(runs.pop().unwrap()),
        _ => GitEvent::Done,
    });
    assert_eq!(
        actions,
        vec![
            GitAction::CloneOrFetch { repo: s("https://host/r") },
            GitAction::CreateWorktree { ref_name: s("a"), worktree: s("wt-a") },
            GitAction::ScanWorktree { worktree: s("wt-a"), label: s("L (a)") },
            GitAction::DestroyWorktree { worktree: s("wt-a") },
            GitAction::CreateWorktree { ref_name: s("b"), worktree: s("wt-b") },
            GitAction::ScanWorktree { worktree: s("wt-b"), label: s("L (b)") },
            GitAction::DestroyWorktree { worktree: s("wt-b") },
        ]
    );
    assert_eq!(
        output,
        Ok(JobOutput::Runs(vec![run("r1", Some("a"), false), run("r2", Some("main"), true)]))
    );
}

#[test]
fn comparison_stops_at_a_failed_baseline() {
    let (actions, output) = play(compare_job(), |action| match action {
        GitAction::ScanWorktree { .. } => GitEvent::Failed(error("bad baseline")),
        _ => GitEvent::Done,
    });
    assert_eq!(actions.len(), 4);
    assert_eq!(actions[3], GitAction::DestroyWorktree { worktree: s("wt-a") });
    assert_eq!(output, Err(s("bad baseline")));
}

#[test]
fn every_worktree_is_removed_whatever_fails() {
    // The operations of a full comparison, counted; in each round another fails.
    for failing in 0..12 {
        let mut count = 0;
        let mut standing: Vec<String> = Vec::new();
        let job = run_compare_refs("u", RepoSource::Local, true, "L", ("a", "x"), ("b", "y"));
        let (actions, _) = play(job, |action| {
            let fails = count == failing;
            count += 1;
            match action {
                GitAction::CreateWorktree { worktree, .. } if !fails => {
                    standing.push(worktree.clone());
                }
                GitAction::DestroyWorktree { worktree } => {
                    assert_eq!(standing.pop(), Some(worktree.clone()));
                }
                _ => {}
            }
            if fails {
                GitEvent::Failed(error("x"))
            } else if let GitAction::ScanWorktree { .. } = action {
                GitEvent::Scanned(run("r", None, true))
            } else {
                GitEvent::Done
            }
        });
        assert!(standing.is_empty());
        assert!(actions.len() <= 11);
    }
}

#[test]
fn refs_are_listed_from_where_the_repository_is() {
    for (source, first) in [
        (RepoSource::Local, GitAction::OpenLocalRepo),
        (RepoSource::Remote, GitAction::CloneOrFetch { repo: s("u") }),
    ] {
        let (actions, output) = play(load_refs("u", source), |action| match action {
            GitAction::ListRefs { .. } => GitEvent::Listed(s("[]")),
            _ => GitEvent::Done,
        });
        assert_eq!(actions, vec![first, GitAction::ListRefs { source }]);
        assert_eq!(output, Ok(JobOutput::Refs(s("[]"))));
    }
}

#[test]
fn listing_that_fails_is_a_failure() {
    let (actions, output) = play(load_refs("u", RepoSource::Remote), |action| match action {
        GitAction::ListRefs { .. } => GitEvent::Failed(error("no refs")),
        _ => GitEvent::Done,
    });
    assert_eq!(actions.len(), 2);
    assert_eq!(output, Err(s("no refs")));
}

#[test]
fn worktrees_are_named_after_random_ids() {
    assert_eq!(worktree_name("0af3"), "wt-0af3");
    let a = fresh_worktree_name();
    let b = fresh_worktree_name();
    assert_ne!(a, b);
    for name in [a, b] {
        let id = name.strip_prefix("wt-").unwrap();
        assert_eq!(id.len(), 32);
        assert!(id.chars().all(|c| c.is_ascii_digit() || ('a'..='f').contains(&c)));
        let parsed = uuid::Uuid::parse_str(id).unwrap();
        assert_eq!(parsed.get_version_num(), 4);
        assert_eq!(parsed.simple().to_string(), id);
        assert!("89ab".contains(&id[16..17]));
    }
}

#[test]
fn skipped_submodules_are_logged() {
    let line = populate_worktree_submodules(&Ok(vec![s("file:///x"), s("ext::y")])).unwrap();
    assert_eq!(line.level, LogLevel::Warn);
    assert_eq!(line.event, "git_submodule_skipped");
    assert_eq!(line.message, "skipped unsafe submodule URL(s): file:///x, ext::y");
    let line = populate_worktree_submodules(&Ok(vec![s("one")])).unwrap();
    assert_eq!(line.message, "skipped unsafe submodule URL(s): one");
}

#[test]
fn failed_submodules_are_logged() {
    let line = populate_worktree_submodules(&Err(error("no network").context("update"))).unwrap();
    assert_eq!(line.level, LogLevel::Warn);
    assert_eq!(line.event, "git_submodule_error");
    assert_eq!(line.message, "submodule population failed: update: no network");
}

#[test]
fn populated_submodules_are_not_logged() {
    assert_eq!(populate_worktree_submodules(&Ok(Vec::new())), None);
}
