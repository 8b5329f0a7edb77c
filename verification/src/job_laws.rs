//! What holds of every job, whatever comes of its operations.

use vstd::prelude::*;

use crate::access::RepoSource;
use crate::job::{
    answers, new_job, side_task, task_views, with_branch, GitAction, GitEvent, JobOutput, JobView,
    OutputView, Phase, RefTask, ScanRun,
};

verus! {

/// The operations of a job so far, in their order, each with what came of it.
pub type Talk = Seq<(GitAction<Seq<char>>, GitEvent<Seq<char>>)>;

/// `talk` is a possible course of `job`: each operation is the one pending at
/// its time, and each event one that can come of it.
pub open spec fn follows(job: JobView, talk: Talk) -> bool
    decreases talk.len(),
{
    talk.len() == 0 || {
        let (action, event) = talk.first();
        &&& job.pending() == Some(action)
        &&& answers(action, event)
        &&& follows(job.after(event), talk.drop_first())
    }
}

/// The job at the end of `talk`.
pub open spec fn outcome(job: JobView, talk: Talk) -> JobView
    decreases talk.len(),
{
    if talk.len() == 0 {
        job
    } else {
        outcome(job.after(talk.first().1), talk.drop_first())
    }
}

/// How many more times the worktree `name` was created than removed in `talk`.
/// A creation that failed has created nothing.
pub open spec fn standing(talk: Talk, name: Seq<char>) -> int
    decreases talk.len(),
{
    if talk.len() == 0 {
        0
    } else {
        let (action, event) = talk.first();
        standing(talk.drop_first(), name) + match action {
            GitAction::CreateWorktree { worktree, .. } => if worktree == name && !(event is Failed) {
                1int
            } else {
                0int
            },
            GitAction::DestroyWorktree { worktree } => if worktree == name {
                -1int
            } else {
                0int
            },
            _ => 0int,
        }
    }
}

/// Does the worktree of the current ref exist at this point of the job?
spec fn holds_worktree(job: JobView) -> bool {
    job.phase is Populate || job.phase is Scan || job.phase is Destroy
}

spec fn held(job: JobView, name: Seq<char>) -> int {
    if holds_worktree(job) && job.task().worktree == name {
        1
    } else {
        0
    }
}

/// A job stays well-formed.
proof fn lemma_after_well_formed(job: JobView, event: GitEvent<Seq<char>>)
    requires
        job.well_formed(),
        job.pending() is Some,
        answers(job.pending()->0, event),
    ensures
        job.after(event).well_formed(),
{
}

proof fn lemma_standing(job: JobView, talk: Talk, name: Seq<char>)
    requires
        job.well_formed(),
        follows(job, talk),
    ensures
        outcome(job, talk).well_formed(),
        standing(talk, name) == held(outcome(job, talk), name) - held(job, name),
    decreases talk.len(),
{
    if talk.len() > 0 {
        let (action, event) = talk.first();
        lemma_after_well_formed(job, event);
        lemma_standing(job.after(event), talk.drop_first(), name);
    }
}

/// Every worktree is removed: when a job is finished, by success or by failure,
/// each worktree that it created has been removed again, whatever the scan in
/// it came to. Before that at most one is left standing.
pub proof fn law_worktrees_are_removed(job: JobView, talk: Talk)
    requires
        job.well_formed(),
        job.phase is Resolve,
        follows(job, talk),
    ensures
        forall|name: Seq<char>| 0 <= #[trigger] standing(talk, name) <= 1,
        forall|a: Seq<char>, b: Seq<char>|
            a != b ==> #[trigger] standing(talk, a) + #[trigger] standing(talk, b) <= 1,
        outcome(job, talk).finished() ==> forall|name: Seq<char>| #[trigger]
            standing(talk, name) == 0,
{
    assert forall|name: Seq<char>| #[trigger]
        standing(talk, name) == held(outcome(job, talk), name) by {
        lemma_standing(job, talk, name);
    }
}

/// Is `action` one that the job was given leave for: on its own repository, on
/// its own refs and worktrees, and fetching submodules only where that was
/// granted?
pub open spec fn in_scope(job: JobView, action: GitAction<Seq<char>>) -> bool {
    match action {
        GitAction::OpenLocalRepo => job.source == RepoSource::Local,
        GitAction::CloneOrFetch { repo } => job.source == RepoSource::Remote && repo == job.repo,
        GitAction::ListRefs { source } => job.listing && source == job.source,
        GitAction::CreateWorktree { ref_name, worktree } => !job.listing && exists|k: int|
            0 <= k < job.tasks.len() && (#[trigger] job.tasks[k]).ref_name == ref_name
                && job.tasks[k].worktree == worktree,
        GitAction::PopulateSubmodules { worktree } => job.populate && !job.listing && exists|k: int|
            0 <= k < job.tasks.len() && (#[trigger] job.tasks[k]).worktree == worktree,
        GitAction::ScanWorktree { worktree, label } => !job.listing && exists|k: int|
            0 <= k < job.tasks.len() && (#[trigger] job.tasks[k]).worktree == worktree
                && job.tasks[k].label == label,
        GitAction::DestroyWorktree { worktree } => !job.listing && exists|k: int|
            0 <= k < job.tasks.len() && (#[trigger] job.tasks[k]).worktree == worktree,
        GitAction::RewriteReport { branch } => !job.listing && exists|k: int|
            0 <= k < job.tasks.len() && (#[trigger] job.tasks[k]).ref_name == branch,
    }
}

proof fn lemma_in_scope(job: JobView, talk: Talk)
    requires
        job.well_formed(),
        follows(job, talk),
    ensures
        forall|i: int| 0 <= i < talk.len() ==> in_scope(job, (#[trigger] talk[i]).0),
    decreases talk.len(),
{
    if talk.len() > 0 {
        let (action, event) = talk.first();
        let next = job.after(event);
        lemma_after_well_formed(job, event);
        lemma_in_scope(next, talk.drop_first());
        assert(in_scope(job, action)) by {
            let k = job.reports.len() as int;
            if k < job.tasks.len() {
                assert(job.task() == job.tasks[k]);
            }
            if job.phase is Rewrite {
                assert(job.tasks[k - 1].ref_name == job.reports.last().git_branch->0);
            }
        }
        assert forall|i: int| 0 <= i < talk.len() implies in_scope(
            job,
            (#[trigger] talk[i]).0,
        ) by {
            if i > 0 {
                assert(talk.drop_first()[i - 1] == talk[i]);
                assert(in_scope(next, talk[i].0));
            }
        }
    }
}

/// A job does nothing beyond what it was given leave for.
pub proof fn law_job_stays_in_scope(job: JobView, talk: Talk)
    requires
        job.well_formed(),
        job.phase is Resolve,
        follows(job, talk),
    ensures
        forall|i: int| 0 <= i < talk.len() ==> in_scope(job, (#[trigger] talk[i]).0),
{
    lemma_in_scope(job, talk);
}

/// What the world says to the scan of one ref: whether it can be checked out,
/// and what the scan comes to. (Nothing depends on the other operations.)
pub struct LegFacts {
    pub created: Result<(), anyhow::Error>,
    pub scanned: Result<ScanRun<Seq<char>>, anyhow::Error>,
}

/// What the scan of one ref comes to.
pub open spec fn leg_result(task: RefTask<Seq<char>>, facts: LegFacts) -> Result<
    ScanRun<Seq<char>>,
    anyhow::Error,
> {
    match (facts.created, facts.scanned) {
        (Err(e), _) => Err(e),
        (Ok(_), Err(e)) => Err(e),
        (Ok(_), Ok(run)) => Ok(with_branch(run, task.ref_name)),
    }
}

/// The operations of the scan of one ref: check it out, fetch its submodules if
/// they are wanted, scan, remove the worktree, and write the report again where
/// there is one and the run had no branch.
pub open spec fn leg_talk(populate: bool, task: RefTask<Seq<char>>, facts: LegFacts) -> Talk {
    let RefTask { ref_name, label, worktree } = task;
    let create = GitAction::CreateWorktree { ref_name, worktree };
    match facts.created {
        Err(e) => seq![(create, GitEvent::Failed(e))],
        Ok(_) => {
            let populated = if populate {
                seq![(GitAction::PopulateSubmodules { worktree }, GitEvent::Done)]
            } else {
                Seq::empty()
            };
            let scanned = match facts.scanned {
                Ok(run) => GitEvent::Scanned(run),
                Err(e) => GitEvent::Failed(e),
            };
            let rewritten = if facts.scanned is Ok && facts.scanned->Ok_0.git_branch is None
                && facts.scanned->Ok_0.has_html {
                seq![(GitAction::RewriteReport { branch: ref_name }, GitEvent::Done)]
            } else {
                Seq::empty()
            };
            seq![(create, GitEvent::Done)] + populated + seq![
                (GitAction::ScanWorktree { worktree, label }, scanned),
                (GitAction::DestroyWorktree { worktree }, GitEvent::Done),
            ] + rewritten
        },
    }
}

/// The operations of the scans of the refs from the `k`th on: one ref after the
/// other, up to the first that fails.
pub open spec fn legs_talk(
    populate: bool,
    tasks: Seq<RefTask<Seq<char>>>,
    facts: Seq<LegFacts>,
    k: nat,
) -> Talk
    decreases tasks.len() - k,
{
    if k >= tasks.len() {
        Seq::empty()
    } else {
        leg_talk(populate, tasks[k as int], facts[k as int]) + if leg_result(
            tasks[k as int],
            facts[k as int],
        ) is Ok {
            legs_talk(populate, tasks, facts, k + 1)
        } else {
            Seq::empty()
        }
    }
}

/// What those scans come to: all the runs, or the first failure.
pub open spec fn legs_result(
    tasks: Seq<RefTask<Seq<char>>>,
    facts: Seq<LegFacts>,
    k: nat,
) -> Result<Seq<ScanRun<Seq<char>>>, anyhow::Error>
    decreases tasks.len() - k,
{
    if k >= tasks.len() {
        Ok(Seq::empty())
    } else {
        match leg_result(tasks[k as int], facts[k as int]) {
            Err(e) => Err(e),
            Ok(run) => match legs_result(tasks, facts, k + 1) {
                Err(e) => Err(e),
                Ok(runs) => Ok(seq![run] + runs),
            },
        }
    }
}

proof fn lemma_talk_in_parts(job: JobView, a: Talk, b: Talk)
    requires
        follows(job, a),
        follows(outcome(job, a), b),
    ensures
        follows(job, a + b),
        outcome(job, a + b) == outcome(outcome(job, a), b),
    decreases a.len(),
{
    if a.len() == 0 {
        assert(a + b =~= b);
    } else {
        assert((a + b).drop_first() =~= a.drop_first() + b);
        assert((a + b).first() == a.first());
        lemma_talk_in_parts(job.after(a.first().1), a.drop_first(), b);
    }
}

/// A talk of one operation.
proof fn lemma_talk_of_one(job: JobView, action: GitAction<Seq<char>>, event: GitEvent<Seq<char>>)
    requires
        job.pending() == Some(action),
        answers(action, event),
    ensures
        follows(job, seq![(action, event)]),
        outcome(job, seq![(action, event)]) == job.after(event),
{
    let talk = seq![(action, event)];
    assert(talk.drop_first() =~= Seq::empty());
    reveal_with_fuel(follows, 2);
    reveal_with_fuel(outcome, 2);
}

/// The scan of one ref goes as `leg_talk` says.
proof fn lemma_leg(job: JobView, facts: LegFacts)
    requires
        job.well_formed(),
        job.phase is Create,
    ensures
        follows(job, leg_talk(job.populate, job.task(), facts)),
        outcome(job, leg_talk(job.populate, job.task(), facts)) == match leg_result(
            job.task(),
            facts,
        ) {
            Err(e) => job.at(Phase::Failed(e)),
            Ok(run) => (JobView { reports: job.reports.push(run), ..job }).advanced(),
        },
{
    let RefTask { ref_name, label, worktree } = job.task();
    let create = GitAction::CreateWorktree { ref_name, worktree };
    match facts.created {
        Err(e) => {
            lemma_talk_of_one(job, create, GitEvent::Failed(e));
        },
        Ok(_) => {
            let scan = GitAction::ScanWorktree { worktree, label };
            let destroy = GitAction::DestroyWorktree { worktree };
            let populate = GitAction::PopulateSubmodules { worktree };
            let rewrite = GitAction::RewriteReport { branch: ref_name };
            let scanned = match facts.scanned {
                Ok(run) => GitEvent::Scanned(run),
                Err(e) => GitEvent::Failed(e),
            };
            let t1 = seq![(create, GitEvent::Done)];
            lemma_talk_of_one(job, create, GitEvent::Done);
            let job1 = job.after(GitEvent::Done);
            let populated = if job.populate {
                seq![(populate, GitEvent::Done)]
            } else {
                Seq::empty()
            };
            if job.populate {
                lemma_talk_of_one(job1, populate, GitEvent::Done);
            }
            lemma_talk_in_parts(job, t1, populated);
            let job2 = job.at(Phase::Scan);
            assert(outcome(job, t1 + populated) == job2);
            lemma_talk_of_one(job2, scan, scanned);
            let job3 = job2.after(scanned);
            lemma_talk_of_one(job3, destroy, GitEvent::Done);
            let last_two = seq![(scan, scanned)] + seq![(destroy, GitEvent::Done)];
            lemma_talk_in_parts(job2, seq![(scan, scanned)], seq![(destroy, GitEvent::Done)]);
            assert(last_two =~= seq![(scan, scanned), (destroy, GitEvent::Done)]);
            lemma_talk_in_parts(job, t1 + populated, last_two);
            let job4 = job3.after(GitEvent::Done);
            let t4 = t1 + populated + last_two;
            if facts.scanned is Ok && facts.scanned->Ok_0.git_branch is None
                && facts.scanned->Ok_0.has_html {
                lemma_talk_of_one(job4, rewrite, GitEvent::Done);
                lemma_talk_in_parts(job, t4, seq![(rewrite, GitEvent::Done)]);
            } else {
                assert(t4 + Seq::empty() =~= t4);
            }
        },
    }
}

proof fn lemma_legs(job: JobView, facts: Seq<LegFacts>)
    requires
        job.well_formed(),
        job.phase is Create || job.phase is Scanned,
        facts.len() == job.tasks.len(),
    ensures
        ({
            let k = job.reports.len();
            let talk = legs_talk(job.populate, job.tasks, facts, k);
            &&& follows(job, talk)
            &&& match legs_result(job.tasks, facts, k) {
                Ok(runs) => outcome(job, talk) == (JobView {
                    reports: job.reports + runs,
                    phase: Phase::Scanned,
                    ..job
                }),
                Err(e) => outcome(job, talk).phase == Phase::<Seq<char>>::Failed(e),
            }
        }),
    decreases job.tasks.len() - job.reports.len(),
{
    let k = job.reports.len();
    if job.phase is Scanned {
        assert(job.reports + Seq::empty() =~= job.reports);
    } else {
        let leg = leg_talk(job.populate, job.task(), facts[k as int]);
        lemma_leg(job, facts[k as int]);
        match leg_result(job.task(), facts[k as int]) {
            Err(e) => {
                assert(leg + Seq::empty() =~= leg);
            },
            Ok(run) => {
                let next = (JobView { reports: job.reports.push(run), ..job }).advanced();
                lemma_legs(next, facts);
                lemma_talk_in_parts(job, leg, legs_talk(job.populate, job.tasks, facts, k + 1));
                if legs_result(job.tasks, facts, k + 1) is Ok {
                    let runs = legs_result(job.tasks, facts, k + 1)->Ok_0;
                    assert(job.reports.push(run) + runs =~= job.reports + (seq![run] + runs));
                }
            },
        }
    }
}

/// The operation that opens or fetches the repository.
pub open spec fn resolve_action(job: JobView) -> GitAction<Seq<char>> {
    match job.source {
        RepoSource::Local => GitAction::OpenLocalRepo,
        RepoSource::Remote => GitAction::CloneOrFetch { repo: job.repo },
    }
}

/// A job that scans: once the repository is there it scans its refs one after
/// the other, as `legs_talk` says, and has all the runs or the first failure to
/// show for it. So the current ref of a comparison is not touched unless the
/// scan of the baseline worked.
pub proof fn law_scan_job(job: JobView, facts: Seq<LegFacts>)
    requires
        job.well_formed(),
        job.phase is Resolve,
        !job.listing,
        facts.len() == job.tasks.len(),
    ensures
        ({
            let talk = seq![(resolve_action(job), GitEvent::Done)] + legs_talk(
                job.populate,
                job.tasks,
                facts,
                0,
            );
            &&& follows(job, talk)
            &&& match legs_result(job.tasks, facts, 0) {
                Ok(runs) => outcome(job, talk).phase is Scanned && outcome(job, talk).reports
                    == runs,
                Err(e) => outcome(job, talk).phase == Phase::<Seq<char>>::Failed(e),
            }
        }),
{
    lemma_talk_of_one(job, resolve_action(job), GitEvent::Done);
    let next = job.after(GitEvent::Done);
    lemma_legs(next, facts);
    lemma_talk_in_parts(
        job,
        seq![(resolve_action(job), GitEvent::Done)],
        legs_talk(job.populate, job.tasks, facts, 0),
    );
    if legs_result(job.tasks, facts, 0) is Ok {
        let runs = legs_result(job.tasks, facts, 0)->Ok_0;
        assert(next.reports + runs =~= runs);
    }
}

/// A job that lists: once the repository is there its refs are listed, and the
/// list or the failure is what it has to show for it.
pub proof fn law_list_job(job: JobView, listed: Result<Seq<char>, anyhow::Error>)
    requires
        job.well_formed(),
        job.phase is Resolve,
        job.listing,
    ensures
        ({
            let event = match listed {
                Ok(text) => GitEvent::Listed(text),
                Err(e) => GitEvent::Failed(e),
            };
            let talk = seq![(resolve_action(job), GitEvent::Done)] + seq![
                (GitAction::ListRefs { source: job.source }, event),
            ];
            &&& follows(job, talk)
            &&& match listed {
                Ok(text) => outcome(job, talk).phase == Phase::Listed(text),
                Err(e) => outcome(job, talk).phase == Phase::<Seq<char>>::Failed(e),
            }
        }),
{
    let event = match listed {
        Ok(text) => GitEvent::Listed(text),
        Err(e) => GitEvent::Failed(e),
    };
    let list = GitAction::ListRefs { source: job.source };
    lemma_talk_of_one(job, resolve_action(job), GitEvent::Done);
    lemma_talk_of_one(job.after(GitEvent::Done), list, event);
    lemma_talk_in_parts(job, seq![(resolve_action(job), GitEvent::Done)], seq![(list, event)]);
}

/// A job whose repository cannot be opened or fetched does nothing more.
pub proof fn law_job_without_repository(job: JobView, e: anyhow::Error)
    requires
        job.well_formed(),
        job.phase is Resolve,
    ensures
        ({
            let talk = seq![(resolve_action(job), GitEvent::Failed(e))];
            &&& follows(job, talk)
            &&& outcome(job, talk).phase == Phase::<Seq<char>>::Failed(e)
            &&& outcome(job, talk).pending() is None
        }),
{
    lemma_talk_of_one(job, resolve_action(job), GitEvent::Failed(e));
}

/// Operations that are done at best effort: fetching submodules, removing a
/// worktree and writing a report again.
pub open spec fn best_effort(action: GitAction<Seq<char>>) -> bool {
    action is PopulateSubmodules || action is DestroyWorktree || action is RewriteReport
}

/// The two have the same operations, and the same has come of each, though
/// perhaps not of those that are done at best effort.
pub open spec fn same_but_best_effort(a: Talk, b: Talk) -> bool {
    &&& a.len() == b.len()
    &&& forall|i: int|
        0 <= i < a.len() ==> {
            &&& (#[trigger] a[i]).0 == (#[trigger] b[i]).0
            &&& !best_effort(a[i].0) ==> a[i].1 == b[i].1
        }
}

/// Taking the first operation of a job off its talk.
proof fn lemma_first_step(job: JobView, talk: Talk, n: int)
    requires
        0 <= n < talk.len(),
        follows(job, talk.skip(n)),
    ensures
        job.pending() == Some(talk[n].0),
        answers(talk[n].0, talk[n].1),
        follows(job.after(talk[n].1), talk.skip(n + 1)),
        outcome(job, talk.skip(n)) == outcome(job.after(talk[n].1), talk.skip(n + 1)),
{
    assert(talk.skip(n).first() == talk[n]);
    assert(talk.skip(n).drop_first() =~= talk.skip(n + 1));
}

/// What the world has said to the scan of the current ref in a talk that begins
/// with it, and how the talk goes on.
proof fn lemma_only_leg(job: JobView, talk: Talk, n: int) -> (facts: LegFacts)
    requires
        job.well_formed(),
        job.phase is Create,
        0 <= n <= talk.len(),
        follows(job, talk.skip(n)),
        outcome(job, talk.skip(n)).finished(),
    ensures
        ({
            let leg = leg_talk(job.populate, job.task(), facts);
            let next = outcome(job, leg);
            let m = n + leg.len();
            &&& m <= talk.len()
            &&& same_but_best_effort(talk.subrange(n, m), leg)
            &&& follows(next, talk.skip(m))
            &&& outcome(next, talk.skip(m)) == outcome(job, talk.skip(n))
        }),
{
    lemma_first_step(job, talk, n);
    let job1 = job.after(talk[n].1);
    let p = if job.populate {
        n + 1
    } else {
        n
    };
    match talk[n].1 {
        GitEvent::Failed(e) => {
            let facts = LegFacts { created: Err(e), scanned: Err(e) };
            lemma_leg(job, facts);
            facts
        },
        _ => {
            if job.populate {
                lemma_first_step(job1, talk, n + 1);
            }
            let job2 = job.at(Phase::Scan);
            lemma_first_step(job2, talk, p + 1);
            let job3 = job2.after(talk[p + 1].1);
            lemma_first_step(job3, talk, p + 2);
            let job4 = job3.after(talk[p + 2].1);
            let scanned = match talk[p + 1].1 {
                GitEvent::Scanned(run) => Ok(run),
                GitEvent::Failed(e) => Err(e),
                _ => arbitrary(),
            };
            let facts = LegFacts { created: Ok(()), scanned };
            if job4.phase is Rewrite {
                lemma_first_step(job4, talk, p + 3);
            }
            lemma_leg(job, facts);
            facts
        },
    }
}

/// Those facts do not depend on what was scanned before.
proof fn lemma_same_legs(
    populate: bool,
    tasks: Seq<RefTask<Seq<char>>>,
    a: Seq<LegFacts>,
    b: Seq<LegFacts>,
    k: nat,
)
    requires
        a.len() == tasks.len(),
        b.len() == tasks.len(),
        forall|i: int| k <= i < tasks.len() ==> #[trigger] a[i] == b[i],
    ensures
        legs_talk(populate, tasks, a, k) == legs_talk(populate, tasks, b, k),
    decreases tasks.len() - k,
{
    if k < tasks.len() {
        assert(a[k as int] == b[k as int]);
        lemma_same_legs(populate, tasks, a, b, k + 1);
    }
}

proof fn lemma_only_legs(job: JobView, talk: Talk, n: int, facts: Seq<LegFacts>) -> (found: Seq<
    LegFacts,
>)
    requires
        job.well_formed(),
        job.phase is Create || job.phase is Scanned,
        0 <= n <= talk.len(),
        follows(job, talk.skip(n)),
        outcome(job, talk.skip(n)).finished(),
        facts.len() == job.tasks.len(),
    ensures
        found.len() == job.tasks.len(),
        same_but_best_effort(
            talk.skip(n),
            legs_talk(job.populate, job.tasks, found, job.reports.len()),
        ),
        outcome(job, talk.skip(n)) == outcome(
            job,
            legs_talk(job.populate, job.tasks, found, job.reports.len()),
        ),
    decreases job.tasks.len() - job.reports.len(),
{
    let k = job.reports.len();
    if job.phase is Scanned {
        assert(talk.skip(n) =~= Seq::empty());
        facts
    } else {
        let leg_facts = lemma_only_leg(job, talk, n);
        let leg = leg_talk(job.populate, job.task(), leg_facts);
        let m = n + leg.len();
        let next = outcome(job, leg);
        lemma_leg(job, leg_facts);
        if leg_result(job.task(), leg_facts) is Ok {
            let rest = lemma_only_legs(next, talk, m, facts);
            let found = rest.update(k as int, leg_facts);
            lemma_same_legs(job.populate, job.tasks, found, rest, k + 1);
            let whole = legs_talk(job.populate, job.tasks, found, k);
            let tail = legs_talk(job.populate, job.tasks, found, k + 1);
            assert(whole == leg + tail);
            lemma_legs(next, found);
            lemma_talk_in_parts(job, leg, tail);
            assert forall|i: int| 0 <= i < whole.len() implies {
                &&& (#[trigger] talk.skip(n)[i]).0 == (#[trigger] whole[i]).0
                &&& !best_effort(talk.skip(n)[i].0) ==> talk.skip(n)[i].1 == whole[i].1
            } by {
                if i < leg.len() {
                    assert(talk.subrange(n, m)[i].0 == leg[i].0);
                } else {
                    assert(talk.skip(m)[i - leg.len()].0 == tail[i - leg.len()].0);
                }
            }
            found
        } else {
            let found = facts.update(k as int, leg_facts);
            let whole = legs_talk(job.populate, job.tasks, found, k);
            assert(whole =~= leg);
            assert(talk.skip(m).len() == 0);
            assert(talk.skip(n) =~= talk.subrange(n, m));
            found
        }
    }
}

/// Every job that scans and is finished has gone that way: either the
/// repository was not to be had, or its operations are those of `legs_talk` and
/// it came to what `legs_result` says, for what the world has said. And that is
/// what the job was told when the worktrees were created and scanned: only of
/// what is done at best effort may other things have come.
pub proof fn law_every_scan_talk(job: JobView, talk: Talk)
    requires
        job.well_formed(),
        job.phase is Resolve,
        !job.listing,
        follows(job, talk),
        outcome(job, talk).finished(),
    ensures
        ({
            ||| talk.len() == 1 && talk[0].0 == resolve_action(job) && talk[0].1 is Failed
                && outcome(job, talk).phase == Phase::<Seq<char>>::Failed(talk[0].1->Failed_0)
            ||| exists|facts: Seq<LegFacts>|
                {
                    &&& facts.len() == job.tasks.len()
                    &&& same_but_best_effort(
                        talk,
                        seq![(resolve_action(job), GitEvent::Done)] + #[trigger] legs_talk(
                            job.populate,
                            job.tasks,
                            facts,
                            0,
                        ),
                    )
                    &&& match legs_result(job.tasks, facts, 0) {
                        Ok(runs) => outcome(job, talk).phase is Scanned && outcome(job, talk).reports
                            == runs,
                        Err(e) => outcome(job, talk).phase == Phase::<Seq<char>>::Failed(e),
                    }
                }
        }),
{
    assert(talk.skip(0) =~= talk);
    lemma_first_step(job, talk, 0);
    let next = job.after(talk[0].1);
    if talk[0].1 is Failed {
        assert(talk.skip(1).len() == 0);
    } else {
        let some: Seq<LegFacts> = Seq::new(job.tasks.len(), |i: int| arbitrary());
        let facts = lemma_only_legs(next, talk, 1, some);
        let legs = legs_talk(job.populate, job.tasks, facts, 0);
        let whole = seq![(resolve_action(job), GitEvent::Done)] + legs;
        assert forall|i: int| 0 <= i < talk.len() implies {
            &&& (#[trigger] talk[i]).0 == (#[trigger] whole[i]).0
            &&& !best_effort(talk[i].0) ==> talk[i].1 == whole[i].1
        } by {
            if i > 0 {
                assert(talk.skip(1)[i - 1].0 == legs[i - 1].0);
            }
        }
        assert(same_but_best_effort(talk, whole));
        lemma_legs(next, facts);
        if legs_result(job.tasks, facts, 0) is Ok {
            let runs = legs_result(job.tasks, facts, 0)->Ok_0;
            assert(next.reports + runs =~= runs);
        }
    }
}

/// Whether what is done at best effort works makes no difference to the job.
pub proof fn law_best_effort(job: JobView, a: GitEvent<Seq<char>>, b: GitEvent<Seq<char>>)
    requires
        job.pending() matches Some(action) && best_effort(action),
    ensures
        job.after(a) == job.after(b),
{
}

/// How far a job is from its end, at most.
spec fn steps_left(job: JobView) -> int {
    let refs = job.tasks.len() - job.reports.len();
    match job.phase {
        Phase::Resolve => if job.listing {
            2
        } else {
            1 + 5 * refs
        },
        Phase::List => 1,
        Phase::Create => 5 * refs,
        Phase::Populate => 5 * refs - 1,
        Phase::Scan => 5 * refs - 2,
        Phase::Destroy(_) => 5 * refs - 3,
        Phase::Rewrite => 5 * refs + 1,
        _ => 0,
    }
}

proof fn lemma_steps(job: JobView, talk: Talk)
    requires
        job.well_formed(),
        follows(job, talk),
    ensures
        talk.len() + steps_left(outcome(job, talk)) <= steps_left(job),
        steps_left(outcome(job, talk)) >= 0,
    decreases talk.len(),
{
    if talk.len() > 0 {
        let event = talk.first().1;
        lemma_after_well_formed(job, event);
        lemma_steps(job.after(event), talk.drop_first());
    }
}

/// Every job ends: it opens the repository, and then lists its refs or takes at
/// most five operations for each ref that it scans.
pub proof fn law_jobs_end(job: JobView, talk: Talk)
    requires
        job.well_formed(),
        job.phase is Resolve,
        follows(job, talk),
    ensures
        job.listing ==> talk.len() <= 2,
        !job.listing ==> talk.len() <= 1 + 5 * job.tasks.len(),
{
    lemma_steps(job, talk);
}

/// A job keeps to its order: what it is to do is what it was to do. So what a
/// finished job has to show is what was asked for, and every run of it has a
/// branch.
pub proof fn law_job_keeps_its_order(job: JobView, talk: Talk)
    requires
        job.well_formed(),
        follows(job, talk),
    ensures
        ({
            let last = outcome(job, talk);
            &&& last.well_formed()
            &&& last.repo == job.repo && last.source == job.source
            &&& last.populate == job.populate && last.listing == job.listing
            &&& last.tasks == job.tasks
            &&& last.phase matches Phase::Listed(text) ==> job.may_yield(OutputView::Refs(text))
            &&& last.phase is Scanned ==> job.may_yield(OutputView::Runs(last.reports))
            &&& forall|k: int|
                0 <= k < last.reports.len() ==> (#[trigger] last.reports[k]).git_branch is Some
        }),
    decreases talk.len(),
{
    if talk.len() > 0 {
        let event = talk.first().1;
        lemma_after_well_formed(job, event);
        law_job_keeps_its_order(job.after(event), talk.drop_first());
    }
}

/// The refs that were checked out in `talk`, in their order, each with its
/// worktree, whatever came of it.
pub open spec fn creations(talk: Talk) -> Seq<(Seq<char>, Seq<char>)>
    decreases talk.len(),
{
    if talk.len() == 0 {
        Seq::empty()
    } else {
        let earlier = creations(talk.drop_last());
        match talk.last().0 {
            GitAction::CreateWorktree { ref_name, worktree } => earlier.push((ref_name, worktree)),
            _ => earlier,
        }
    }
}

/// The runs that the scans in `talk` came to, in their order.
pub open spec fn runs_told(talk: Talk) -> Seq<ScanRun<Seq<char>>>
    decreases talk.len(),
{
    if talk.len() == 0 {
        Seq::empty()
    } else {
        let earlier = runs_told(talk.drop_last());
        match talk.last().1 {
            GitEvent::Scanned(run) => earlier.push(run),
            _ => earlier,
        }
    }
}

/// The last operation of a talk, and what was before it.
proof fn lemma_last_step(job: JobView, talk: Talk)
    requires
        follows(job, talk),
        talk.len() > 0,
    ensures
        follows(job, talk.drop_last()),
        outcome(job, talk.drop_last()).pending() == Some(talk.last().0),
        answers(talk.last().0, talk.last().1),
        outcome(job, talk) == outcome(job, talk.drop_last()).after(talk.last().1),
    decreases talk.len(),
{
    let rest = talk.drop_first();
    if talk.len() == 1 {
        assert(talk.drop_last() =~= Seq::empty());
        assert(rest =~= Seq::empty());
        reveal_with_fuel(outcome, 2);
    } else {
        lemma_last_step(job.after(talk.first().1), rest);
        assert(talk.drop_last().drop_first() =~= rest.drop_last());
        assert(talk.drop_last().first() == talk.first());
        assert(rest.last() == talk.last());
    }
}

/// `report` is `run`, with a branch: its own, or else the given ref.
pub open spec fn reports_run(
    report: ScanRun<Seq<char>>,
    run: ScanRun<Seq<char>>,
    ref_name: Seq<char>,
) -> bool {
    &&& report.run_id == run.run_id
    &&& report.has_html == run.has_html
    &&& run.git_branch is Some ==> report.git_branch == run.git_branch
    &&& run.git_branch is None ==> report.git_branch == Some(ref_name)
}

/// What a job has behind it, by its phase.
proof fn lemma_history(job: JobView, talk: Talk)
    requires
        job.well_formed(),
        job.phase is Resolve,
        follows(job, talk),
    ensures
        ({
            let last = outcome(job, talk);
            let n = last.reports.len();
            let c = creations(talk).len();
            let runs = runs_told(talk);
            &&& last.well_formed()
            &&& last.repo == job.repo && last.source == job.source && last.tasks == job.tasks
            &&& last.populate == job.populate && last.listing == job.listing
            &&& c <= job.tasks.len()
            &&& forall|j: int|
                0 <= j < c ==> #[trigger] creations(talk)[j] == (
                    job.tasks[j].ref_name,
                    job.tasks[j].worktree,
                )
            &&& runs.len() >= n
            &&& forall|j: int|
                0 <= j < n ==> reports_run(
                    #[trigger] last.reports[j],
                    runs[j],
                    job.tasks[j].ref_name,
                )
            &&& match last.phase {
                Phase::Resolve => talk.len() == 0 && c == 0 && n == 0 && runs.len() == 0,
                Phase::List | Phase::Listed(_) => c == 0 && n == 0 && runs.len() == 0,
                Phase::Create | Phase::Rewrite | Phase::Scanned => c == n && runs.len() == n,
                Phase::Populate | Phase::Scan => c == n + 1 && runs.len() == n,
                Phase::Destroy(Ok(run)) => {
                    &&& c == n + 1 && runs.len() == n + 1 && runs.last() == run
                    &&& talk.len() > 0 && talk.last().0 is ScanWorktree
                    &&& talk.last().1 == GitEvent::Scanned(run)
                },
                Phase::Destroy(Err(e)) => {
                    &&& c == n + 1 && runs.len() == n
                    &&& talk.len() > 0 && talk.last().0 is ScanWorktree
                    &&& talk.last().1 == GitEvent::<Seq<char>>::Failed(e)
                },
                Phase::Failed(_) => runs.len() == n,
            }
        }),
    decreases talk.len(),
{
    if talk.len() > 0 {
        lemma_last_step(job, talk);
        lemma_history(job, talk.drop_last());
        let before = outcome(job, talk.drop_last());
        lemma_after_well_formed(before, talk.last().1);
        let last = outcome(job, talk);
        let k = before.reports.len() as int;
        if k < job.tasks.len() {
            assert(before.task() == job.tasks[k]);
        }
        assert forall|j: int| 0 <= j < last.reports.len() implies reports_run(
            #[trigger] last.reports[j],
            runs_told(talk)[j],
            job.tasks[j].ref_name,
        ) by {
            if j < k {
                assert(last.reports[j] == before.reports[j]);
            }
        }
    }
}

/// A job begins with its repository: a local one is opened in place, any other
/// is cloned or fetched from the URL it was given.
pub proof fn law_first_operation(job: JobView)
    requires
        job.phase is Resolve,
    ensures
        job.source is Local ==> job.pending() == Some(GitAction::<Seq<char>>::OpenLocalRepo),
        job.source is Remote ==> job.pending() == Some(
            GitAction::CloneOrFetch { repo: job.repo },
        ),
{
}

/// A job that has come to `last` goes on with ref `k` of those it is to scan, or
/// is through with all of them.
pub open spec fn goes_on_with(job: JobView, last: JobView, k: int) -> bool {
    if k < job.tasks.len() {
        last.pending() == Some(
            GitAction::CreateWorktree {
                ref_name: job.tasks[k].ref_name,
                worktree: job.tasks[k].worktree,
            },
        )
    } else {
        last.phase is Scanned && last.pending() is None
    }
}

/// A job that has come to `last` has failed, with this very error.
pub open spec fn failed_with(last: JobView, e: anyhow::Error) -> bool {
    last.phase == Phase::<Seq<char>>::Failed(e) && last.pending() is None
}

/// What comes after each operation, given what came of it. Here `c` is the
/// number of refs checked out so far, so that the last of them is `tasks[c - 1]`.
/// A ref that is checked out has its submodules fetched, where that is granted,
/// is scanned under its label, and its worktree is removed whatever the scan came
/// to; then the scan's failure is the job's, or a report without a branch is
/// written again with the ref for its branch, and the next ref follows.
pub proof fn law_next_operation(job: JobView, talk: Talk)
    requires
        job.well_formed(),
        job.phase is Resolve,
        follows(job, talk),
        talk.len() > 0,
    ensures
        ({
            let (action, event) = talk.last();
            let last = outcome(job, talk);
            let c = creations(talk).len() as int;
            match action {
                GitAction::OpenLocalRepo | GitAction::CloneOrFetch { .. } => match event {
                    GitEvent::Failed(e) => failed_with(last, e),
                    _ => if job.listing {
                        last.pending() == Some(
                            GitAction::<Seq<char>>::ListRefs { source: job.source },
                        )
                    } else {
                        goes_on_with(job, last, 0)
                    },
                },
                GitAction::ListRefs { .. } => match event {
                    GitEvent::Failed(e) => failed_with(last, e),
                    GitEvent::Listed(text) => last.phase == Phase::Listed(text)
                        && last.pending() is None,
                    _ => false,
                },
                GitAction::CreateWorktree { ref_name, worktree } => {
                    &&& 0 < c <= job.tasks.len()
                    &&& ref_name == job.tasks[c - 1].ref_name
                    &&& worktree == job.tasks[c - 1].worktree
                    &&& match event {
                        GitEvent::Failed(e) => failed_with(last, e),
                        _ => last.pending() == Some(
                            if job.populate {
                                GitAction::PopulateSubmodules { worktree }
                            } else {
                                GitAction::ScanWorktree { worktree, label: job.tasks[c - 1].label }
                            },
                        ),
                    }
                },
                GitAction::PopulateSubmodules { worktree } => {
                    &&& job.populate
                    &&& 0 < c <= job.tasks.len()
                    &&& worktree == job.tasks[c - 1].worktree
                    &&& last.pending() == Some(
                        GitAction::ScanWorktree { worktree, label: job.tasks[c - 1].label },
                    )
                },
                GitAction::ScanWorktree { worktree, label } => {
                    &&& 0 < c <= job.tasks.len()
                    &&& worktree == job.tasks[c - 1].worktree
                    &&& label == job.tasks[c - 1].label
                    &&& last.pending() == Some(GitAction::DestroyWorktree { worktree })
                },
                GitAction::DestroyWorktree { worktree } => {
                    &&& 0 < c <= job.tasks.len()
                    &&& worktree == job.tasks[c - 1].worktree
                    &&& talk.len() > 1 && talk[talk.len() - 2].0 is ScanWorktree
                    &&& match talk[talk.len() - 2].1 {
                        GitEvent::Failed(e) => failed_with(last, e),
                        GitEvent::Scanned(run) => if run.git_branch is None && run.has_html {
                            last.pending() == Some(
                                GitAction::RewriteReport { branch: job.tasks[c - 1].ref_name },
                            )
                        } else {
                            goes_on_with(job, last, c)
                        },
                        _ => false,
                    }
                },
                GitAction::RewriteReport { branch } => {
                    &&& 0 < c <= job.tasks.len()
                    &&& branch == job.tasks[c - 1].ref_name
                    &&& goes_on_with(job, last, c)
                },
            }
        }),
{
    lemma_last_step(job, talk);
    lemma_history(job, talk);
    let front = talk.drop_last();
    lemma_history(job, front);
    let before = outcome(job, front);
    let k = before.reports.len() as int;
    if k < job.tasks.len() {
        assert(before.task() == job.tasks[k]);
    }
    let last = outcome(job, talk);
    if last.reports.len() < job.tasks.len() {
        assert(last.task() == job.tasks[last.reports.len() as int]);
    }
    if before.phase is Destroy {
        assert(front.last() == talk[talk.len() - 2]);
    }
}

/// The refs are checked out in the order they were given in, each once and each
/// into its own worktree.
pub proof fn law_refs_are_checked_out_in_order(job: JobView, talk: Talk)
    requires
        job.well_formed(),
        job.phase is Resolve,
        follows(job, talk),
    ensures
        creations(talk).len() <= job.tasks.len(),
        forall|k: int|
            0 <= k < creations(talk).len() ==> #[trigger] creations(talk)[k] == (
                job.tasks[k].ref_name,
                job.tasks[k].worktree,
            ),
        outcome(job, talk).phase is Scanned ==> creations(talk).len() == job.tasks.len(),
{
    lemma_history(job, talk);
}

/// A job that is through has one run for each ref, in the order of the refs, and
/// each is what the scan of its own ref came to: the same id and report, and its
/// branch or else the ref.
pub proof fn law_runs_are_those_of_the_refs(job: JobView, talk: Talk)
    requires
        job.well_formed(),
        job.phase is Resolve,
        follows(job, talk),
        outcome(job, talk).phase is Scanned,
    ensures
        runs_told(talk).len() == job.tasks.len(),
        outcome(job, talk).reports.len() == job.tasks.len(),
        forall|k: int|
            0 <= k < job.tasks.len() ==> reports_run(
                #[trigger] outcome(job, talk).reports[k],
                runs_told(talk)[k],
                job.tasks[k].ref_name,
            ),
{
    lemma_history(job, talk);
}

/// When a scan comes to its end, the run it came to is the one of the ref that
/// was checked out last: as many runs have been told as refs checked out.
pub proof fn law_run_belongs_to_the_last_ref(job: JobView, talk: Talk)
    requires
        job.well_formed(),
        job.phase is Resolve,
        follows(job, talk),
        talk.len() > 0,
        talk.last().1 is Scanned,
    ensures
        runs_told(talk).len() == creations(talk).len(),
        runs_told(talk).last() == talk.last().1->Scanned_0,
{
    lemma_last_step(job, talk);
    lemma_history(job, talk);
}

/// What can come of an operation: a failure of any; else a list of listing, a run
/// of scanning, and of all others no more than that they are done.
pub proof fn law_what_can_come_of_an_operation(
    action: GitAction<Seq<char>>,
    text: Seq<char>,
    run: ScanRun<Seq<char>>,
    e: anyhow::Error,
)
    ensures
        answers(action, GitEvent::Failed(e)),
        answers(action, GitEvent::Listed(text)) <==> action is ListRefs,
        answers(action, GitEvent::Scanned(run)) <==> action is ScanWorktree,
        answers(action, GitEvent::Done) <==> !(action is ListRefs || action is ScanWorktree),
{
}

/// A new job has what it was given and nothing behind it. One side of a
/// comparison has its own ref and worktree, and a label that tells the ref.
pub proof fn law_new_job(
    repo: Seq<char>,
    source: RepoSource,
    populate: bool,
    listing: bool,
    tasks: Seq<RefTask<Seq<char>>>,
    label: Seq<char>,
    ref_name: Seq<char>,
    worktree: Seq<char>,
)
    ensures
        ({
            let job = new_job(repo, source, populate, listing, tasks);
            &&& job.repo == repo && job.source == source
            &&& job.populate == populate && job.listing == listing
            &&& job.tasks == tasks && job.reports.len() == 0
            &&& job.phase is Resolve
            &&& !job.finished()
            &&& job.well_formed()
        }),
        ({
            let task = side_task(label, ref_name, worktree);
            &&& task.ref_name == ref_name
            &&& task.worktree == worktree
            &&& task.label == label + " ("@ + ref_name + ")"@
        }),
{
}

/// In contracts strings are their characters, and nothing else of an operation,
/// an event or a result is lost or changed.
pub proof fn law_job_views(
    a: String,
    b: String,
    c: String,
    source: RepoSource,
    branch: Option<String>,
    has_html: bool,
    e: anyhow::Error,
    runs: Vec<ScanRun<String>>,
    tasks: Seq<RefTask<String>>,
)
    ensures
        (RefTask { ref_name: a, label: b, worktree: c })@ == (RefTask {
            ref_name: a@,
            label: b@,
            worktree: c@,
        }),
        ({
            let run = ScanRun { run_id: a, git_branch: branch, has_html };
            &&& run@.run_id == a@
            &&& run@.has_html == has_html
            &&& run@.git_branch is Some <==> branch is Some
            &&& branch is Some ==> run@.git_branch->0 == branch->0@
            &&& GitEvent::Scanned(run)@ == GitEvent::Scanned(run@)
        }),
        GitAction::<String>::OpenLocalRepo@ == GitAction::<Seq<char>>::OpenLocalRepo,
        (GitAction::CloneOrFetch { repo: a })@ == (GitAction::CloneOrFetch { repo: a@ }),
        (GitAction::<String>::ListRefs { source })@ == (GitAction::<Seq<char>>::ListRefs { source }),
        (GitAction::CreateWorktree { ref_name: a, worktree: b })@ == (GitAction::CreateWorktree {
            ref_name: a@,
            worktree: b@,
        }),
        (GitAction::PopulateSubmodules { worktree: a })@ == (GitAction::PopulateSubmodules {
            worktree: a@,
        }),
        (GitAction::ScanWorktree { worktree: a, label: b })@ == (GitAction::ScanWorktree {
            worktree: a@,
            label: b@,
        }),
        (GitAction::DestroyWorktree { worktree: a })@ == (GitAction::DestroyWorktree {
            worktree: a@,
        }),
        (GitAction::RewriteReport { branch: a })@ == (GitAction::RewriteReport { branch: a@ }),
        GitEvent::<String>::Done@ == GitEvent::<Seq<char>>::Done,
        GitEvent::Listed(a)@ == GitEvent::Listed(a@),
        GitEvent::<String>::Failed(e)@ == GitEvent::<Seq<char>>::Failed(e),
        JobOutput::Refs(a)@ == OutputView::Refs(a@),
        ({
            let output = JobOutput::Runs(runs)@;
            &&& output is Runs
            &&& output->Runs_0.len() == runs@.len()
            &&& forall|k: int|
                0 <= k < runs@.len() ==> #[trigger] output->Runs_0[k] == runs@[k]@
        }),
        task_views(tasks).len() == tasks.len(),
        forall|k: int| 0 <= k < tasks.len() ==> #[trigger] task_views(tasks)[k] == tasks[k]@,
{
}

} // verus!
