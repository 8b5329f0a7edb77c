//! What holds of every session, whatever comes of what it wants done.

use vstd::prelude::*;

use crate::access::{
    access_talk, access_verdict, AccessQuestion, AccessState, RepoFacts, RepoSource,
};
use crate::api::{
    compare_reply, compare_session, list_session, scan_reply, scan_session, settles, ApiAction,
    ApiEvent, BadRequest, CompareRefsQuery, Outcome, Request, ScanRefQuery, SessionView, Stage,
};
use crate::job::{GitAction, GitJob, JobOutput, JobView, OutputView, ScanRun};
use crate::job_laws::{
    creations, follows, law_job_stays_in_scope, law_refs_are_checked_out_in_order,
    law_runs_are_those_of_the_refs, outcome, reports_run, runs_told, Talk,
};
use crate::json::{json_string, law_json_members, law_json_string_of_plain_text};
use crate::label::scan_label;
use crate::log::LogLine;
use crate::policy::{populates_submodules, ServerPolicy};
use crate::refname::valid_git_ref;
use crate::reply::{
    error_reply, failure_logged, failure_reply, law_error_reply, tells_error, Reply, TaskFailure,
    STATUS_BAD_GATEWAY, STATUS_BAD_REQUEST, STATUS_FORBIDDEN,
    STATUS_INTERNAL_SERVER_ERROR, STATUS_OK,
};
use crate::text::trimmed;

verus! {

/// What a session has had done so far, in its order, each with what came of it.
pub type Course = Seq<(ApiAction<Seq<char>, JobView>, ApiEvent<OutputView>)>;

/// `course` is a possible course of `session`.
pub open spec fn takes(session: SessionView, course: Course) -> bool
    decreases course.len(),
{
    course.len() == 0 || {
        let (action, event) = course.first();
        &&& session.pending() == Some(action)
        &&& settles(action, event)
        &&& takes(session.after(event), course.drop_first())
    }
}

/// The session at the end of `course`.
pub open spec fn session_after(session: SessionView, course: Course) -> SessionView
    decreases course.len(),
{
    if course.len() == 0 {
        session
    } else {
        session_after(session.after(course.first().1), course.drop_first())
    }
}

/// The question was asked in `course`, and the answer was yes.
pub open spec fn granted(course: Course, question: AccessQuestion<Seq<char>>) -> bool {
    course.contains((ApiAction::Ask(question), ApiEvent::Answer(true)))
}

/// A session whose access is still to be decided, all of whose refs are
/// accepted.
pub open spec fn begun(session: SessionView) -> bool {
    &&& session.stage == Stage::<Seq<char>>::Access(AccessState::AskLocal)
    &&& forall|k: int|
        0 <= k < session.request.tasks().len() ==> valid_git_ref(
            (#[trigger] session.request.tasks()[k]).ref_name,
        )
}

/// A request is either refused on the spot, for want of a repository or because
/// of a ref name, or its session begins with accepted refs only.
pub proof fn law_requests_are_checked_first(
    repo: Option<Seq<char>>,
    scan: ScanRefQuery,
    compare: CompareRefsQuery,
    policy: ServerPolicy,
    a: Seq<char>,
    b: Seq<char>,
)
    ensures
        ({
            let session = list_session(repo, policy);
            if repo is Some {
                begun(session)
            } else {
                is_rejected(session, BadRequest::MissingRepo)
            }
        }),
        ({
            let session = scan_session(scan, policy, a);
            if valid_git_ref(scan.ref_name@) {
                begun(session)
            } else {
                is_rejected(session, BadRequest::InvalidRefName)
            }
        }),
        ({
            let session = compare_session(compare, policy, a, b);
            if valid_git_ref(compare.baseline_ref@) && valid_git_ref(compare.current_ref@) {
                begun(session)
            } else {
                is_rejected(session, BadRequest::InvalidComparedRef)
            }
        }),
{
}

/// A session that wants nothing done and answers with status 400 and the
/// message.
pub open spec fn is_rejected(session: SessionView, problem: BadRequest) -> bool {
    &&& session.pending() is None
    &&& forall|reply: Reply<Seq<char>>| #[trigger]
        session.answers_with(reply) <==> reply == error_reply(STATUS_BAD_REQUEST, problem.text())
}

proof fn lemma_session_keeps(session: SessionView, course: Course)
    requires
        session.well_formed(),
        takes(session, course),
    ensures
        session_after(session, course).well_formed(),
        session_after(session, course).policy == session.policy,
        session_after(session, course).repo == session.repo,
        session_after(session, course).request == session.request,
    decreases course.len(),
{
    if course.len() > 0 {
        lemma_session_keeps(session.after(course.first().1), course.drop_first());
    }
}

proof fn lemma_granted_later(course: Course, question: AccessQuestion<Seq<char>>)
    requires
        course.len() > 0,
        granted(course.drop_first(), question),
    ensures
        granted(course, question),
{
    let item = (
        ApiAction::<Seq<char>, JobView>::Ask(question),
        ApiEvent::<OutputView>::Answer(true),
    );
    let i = choose|i: int| 0 <= i < course.drop_first().len() && course.drop_first()[i] == item;
    assert(course[i + 1] == item);
}

proof fn lemma_local_is_granted(session: SessionView, course: Course)
    requires
        session.well_formed(),
        takes(session, course),
        session.stage is Access,
        session_after(session, course).stage == Stage::<Seq<char>>::Work(RepoSource::Local),
    ensures
        session.stage == Stage::<Seq<char>>::Access(AccessState::AskLocal) ==> granted(
            course,
            AccessQuestion::IsLocal { repo: session.repo },
        ),
        session.stage != Stage::<Seq<char>>::Access(AccessState::AskWithin) ==> granted(
            course,
            AccessQuestion::Resolves { path: trimmed(session.repo) },
        ) && (session.policy.server_mode ==> session.policy.has_scan_roots && granted(
            course,
            AccessQuestion::IsWithinRoots,
        )),
        session.stage == Stage::<Seq<char>>::Access(AccessState::AskWithin) ==> granted(
            course,
            AccessQuestion::IsWithinRoots,
        ),
    decreases course.len(),
{
    let (action, event) = course.first();
    let next = session.after(event);
    let rest = course.drop_first();
    assert(course[0] == (action, event));
    if next.stage is Access {
        lemma_local_is_granted(next, rest);
        if session.stage == Stage::<Seq<char>>::Access(AccessState::AskLocal) {
            lemma_granted_later(course, AccessQuestion::Resolves { path: trimmed(session.repo) });
        }
        if session.policy.server_mode {
            lemma_granted_later(course, AccessQuestion::IsWithinRoots);
        }
    } else if next.stage is Ended {
        reveal_with_fuel(takes, 2);
    } else {
        lemma_work_keeps_source(next, rest);
    }
}

/// Once the work on the repository has begun it is not begun again.
proof fn lemma_work_keeps_source(session: SessionView, course: Course)
    requires
        session.well_formed(),
        takes(session, course),
        !(session.stage is Access),
    ensures
        session_after(session, course).stage is Work ==> session.stage == session_after(
            session,
            course,
        ).stage,
    decreases course.len(),
{
    if course.len() > 0 {
        let next = session.after(course.first().1);
        lemma_work_keeps_source(next, course.drop_first());
    }
}

/// No job runs without leave. A job is on the session's own repository and
/// accepted refs; it fetches submodules only where the policy has it; and it
/// touches the server's disk only after the answers that allow it, which on a
/// server that faces the network take in that the path lies under a configured
/// directory.
pub proof fn law_no_job_without_leave(session: SessionView, course: Course, job: JobView)
    requires
        session.well_formed(),
        begun(session),
        takes(session, course),
        session_after(session, course).pending() == Some(
            ApiAction::<Seq<char>, JobView>::RunJob(job),
        ),
    ensures
        job == session.job(job.source),
        job.well_formed(),
        job.repo == session.repo,
        job.populate ==> populates_submodules(session.policy),
        forall|k: int|
            0 <= k < job.tasks.len() ==> valid_git_ref((#[trigger] job.tasks[k]).ref_name),
        job.source == RepoSource::Local ==> {
            &&& granted(course, AccessQuestion::IsLocal { repo: session.repo })
            &&& granted(course, AccessQuestion::Resolves { path: trimmed(session.repo) })
            &&& session.policy.server_mode ==> session.policy.has_scan_roots && granted(
                course,
                AccessQuestion::IsWithinRoots,
            )
        },
{
    lemma_session_keeps(session, course);
    let last = session_after(session, course);
    assert(last.stage == Stage::<Seq<char>>::Work(job.source));
    if job.source == RepoSource::Local {
        lemma_local_is_granted(session, course);
    }
}

/// Git is handed nothing but accepted ref names, and fetches submodules only
/// where the policy has it, in any course of any job of any session.
pub proof fn law_git_sees_accepted_refs_only(
    session: SessionView,
    course: Course,
    job: JobView,
    talk: Talk,
    i: int,
)
    requires
        session.well_formed(),
        begun(session),
        takes(session, course),
        session_after(session, course).pending() == Some(
            ApiAction::<Seq<char>, JobView>::RunJob(job),
        ),
        follows(job, talk),
        0 <= i < talk.len(),
    ensures
        talk[i].0 matches GitAction::CreateWorktree { ref_name, .. } ==> valid_git_ref(ref_name),
        talk[i].0 is PopulateSubmodules ==> populates_submodules(session.policy),
{
    law_no_job_without_leave(session, course, job);
    law_job_stays_in_scope(job, talk);
}

/// How far a session is from its end.
spec fn steps_left(session: SessionView) -> int {
    match session.stage {
        Stage::Access(AccessState::AskLocal) => 8,
        Stage::Access(AccessState::AskResolves) => 7,
        Stage::Access(_) => 6,
        Stage::Work(_) => 5,
        Stage::Store(leg) => 2 * (session.runs.len() - leg),
        Stage::Record(leg) => 2 * (session.runs.len() - leg) - 1,
        Stage::Ended(_) => 0,
    }
}

proof fn lemma_steps(session: SessionView, course: Course)
    requires
        session.well_formed(),
        takes(session, course),
    ensures
        course.len() + steps_left(session_after(session, course)) <= steps_left(session),
        steps_left(session_after(session, course)) >= 0,
    decreases course.len(),
{
    if course.len() > 0 {
        lemma_steps(session.after(course.first().1), course.drop_first());
    }
}

/// Every session ends: it has at most eight things done.
pub proof fn law_sessions_end(session: SessionView, course: Course)
    requires
        session.well_formed(),
        begun(session),
        takes(session, course),
    ensures
        course.len() <= 8,
{
    lemma_steps(session, course);
}

/// What a session answers with is told by its status: 200 for what was listed
/// or registered, 400 for a request that makes no sense, 403 for a repository
/// out of reach, 502 for git's failures and 500 for a panic.
pub proof fn law_status_of_reply(session: SessionView, reply: Reply<Seq<char>>)
    requires
        session.well_formed(),
        session.answers_with(reply),
    ensures
        match session.stage {
            Stage::Ended(Outcome::Rejected(_)) => reply.status == STATUS_BAD_REQUEST,
            Stage::Ended(Outcome::Refused(_)) => reply.status == STATUS_FORBIDDEN,
            Stage::Ended(Outcome::Failed(TaskFailure::Git(_))) => reply.status
                == STATUS_BAD_GATEWAY,
            Stage::Ended(Outcome::Failed(TaskFailure::Panicked(_))) => reply.status
                == STATUS_INTERNAL_SERVER_ERROR,
            Stage::Ended(_) => reply.status == STATUS_OK,
            _ => false,
        },
{
}

/// With its answer a session logs a failure of the work, and nothing else: a git
/// operation's as a warning and a panic as an error, both under the work's name.
pub proof fn law_failures_are_logged(
    session: SessionView,
    reply: Reply<Seq<char>>,
    line: Option<LogLine>,
)
    requires
        session.well_formed(),
        session.answers_with(reply),
        session.logs(line),
    ensures
        line is Some <==> reply.status == STATUS_BAD_GATEWAY || reply.status
            == STATUS_INTERNAL_SERVER_ERROR,
        line is Some ==> {
            &&& line->0.level is Warn <==> reply.status == STATUS_BAD_GATEWAY
            &&& line->0.level is Error <==> reply.status == STATUS_INTERNAL_SERVER_ERROR
            &&& session.request.op().is_prefix_of(line->0.message@)
        },
{
    law_status_of_reply(session, reply);
}

proof fn lemma_course_in_parts(session: SessionView, a: Course, b: Course)
    requires
        takes(session, a),
        takes(session_after(session, a), b),
    ensures
        takes(session, a + b),
        session_after(session, a + b) == session_after(session_after(session, a), b),
    decreases a.len(),
{
    if a.len() == 0 {
        assert(a + b =~= b);
    } else {
        assert((a + b).drop_first() =~= a.drop_first() + b);
        assert((a + b).first() == a.first());
        lemma_course_in_parts(session.after(a.first().1), a.drop_first(), b);
    }
}

proof fn lemma_course_of_one(
    session: SessionView,
    action: ApiAction<Seq<char>, JobView>,
    event: ApiEvent<OutputView>,
)
    requires
        session.pending() == Some(action),
        settles(action, event),
    ensures
        takes(session, seq![(action, event)]),
        session_after(session, seq![(action, event)]) == session.after(event),
{
    let course = seq![(action, event)];
    assert(course.drop_first() =~= Seq::empty());
    reveal_with_fuel(takes, 2);
    reveal_with_fuel(session_after, 2);
}

/// The questions about access in a course, with their answers.
pub open spec fn access_course(session: SessionView, facts: RepoFacts) -> Course {
    access_talk(session.policy, session.repo, facts).map_values(
        |item: (AccessQuestion<Seq<char>>, bool)| (ApiAction::Ask(item.0), ApiEvent::Answer(item.1)),
    )
}

/// The stage of a session once its access is decided.
pub open spec fn access_exit(session: SessionView, facts: RepoFacts) -> Stage<Seq<char>> {
    match access_verdict(session.policy, facts) {
        Ok(source) => Stage::Work(source),
        Err(refusal) => Stage::Ended(Outcome::Refused(refusal)),
    }
}

/// A session begins with the questions of `access_talk`.
pub proof fn law_access_of_session(session: SessionView, facts: RepoFacts)
    requires
        session.well_formed(),
        session.stage == Stage::<Seq<char>>::Access(AccessState::AskLocal),
    ensures
        takes(session, access_course(session, facts)),
        session_after(session, access_course(session, facts)) == session.at(
            access_exit(session, facts),
        ),
{
    reveal_with_fuel(takes, 4);
    reveal_with_fuel(session_after, 4);
    let course = access_course(session, facts);
    if course.len() > 1 {
        assert(course.drop_first()[0] == course[1]);
        if course.len() > 2 {
            assert(course.drop_first().drop_first()[0] == course[2]);
        }
    }
}

/// The registration of the runs from the given ref on: of each its artifacts
/// are stored, and then it is entered into the registry under its label.
pub open spec fn registration(session: SessionView, leg: int) -> Course
    decreases session.runs.len() - leg,
{
    if leg >= session.runs.len() {
        Seq::empty()
    } else {
        let run_id = session.runs[leg].run_id;
        let label = session.request.tasks()[leg].label;
        seq![
            (ApiAction::StoreArtifacts { leg: leg as usize, run_id }, ApiEvent::Done),
            (ApiAction::RecordRun { leg: leg as usize, run_id, label }, ApiEvent::Done),
        ] + registration(session, leg + 1)
    }
}

proof fn lemma_registration(session: SessionView, leg: usize)
    requires
        session.well_formed(),
        session.stage == Stage::<Seq<char>>::Store(leg),
    ensures
        takes(session, registration(session, leg as int)),
        session_after(session, registration(session, leg as int)) == session.at(
            Stage::Ended(Outcome::Registered),
        ),
    decreases session.runs.len() - leg,
{
    let run_id = session.runs[leg as int].run_id;
    let label = session.request.tasks()[leg as int].label;
    let store = ApiAction::StoreArtifacts { leg, run_id };
    let record = ApiAction::RecordRun { leg, run_id, label };
    let stored = session.after(ApiEvent::Done);
    let recorded = stored.after(ApiEvent::Done);
    lemma_course_of_one(session, store, ApiEvent::Done);
    lemma_course_of_one(stored, record, ApiEvent::Done);
    let first = seq![(store, ApiEvent::Done)] + seq![(record, ApiEvent::Done)];
    lemma_course_in_parts(session, seq![(store, ApiEvent::Done)], seq![(record, ApiEvent::Done)]);
    assert(first =~= seq![(store, ApiEvent::Done), (record, ApiEvent::Done)]);
    let rest = registration(session, leg + 1);
    if leg + 1 < session.runs.len() {
        let next = (leg + 1) as usize;
        lemma_registration(recorded, next);
        lemma_same_registration(session, recorded, leg + 1);
        assert(recorded.at(Stage::Ended(Outcome::Registered)) == session.at(
            Stage::Ended(Outcome::Registered),
        ));
    } else {
        assert(rest =~= Seq::empty());
    }
    lemma_course_in_parts(session, first, rest);
}

/// The registration depends on the runs and the request alone.
proof fn lemma_same_registration(a: SessionView, b: SessionView, leg: int)
    requires
        a.runs == b.runs,
        a.request == b.request,
    ensures
        registration(a, leg) == registration(b, leg),
    decreases a.runs.len() - leg,
{
    if leg < a.runs.len() {
        lemma_same_registration(a, b, leg + 1);
    }
}

/// What comes of the job.
pub open spec fn job_event(done: Result<OutputView, TaskFailure>) -> ApiEvent<OutputView> {
    match done {
        Ok(output) => ApiEvent::JobDone(output),
        Err(failure) => ApiEvent::JobFailed(failure),
    }
}

/// The whole course of a session, given the answers about access and what the
/// job comes to: the questions; where access is granted, the job; and where that
/// has runs to show, their registration.
pub open spec fn session_course(
    session: SessionView,
    facts: RepoFacts,
    done: Result<OutputView, TaskFailure>,
) -> Course {
    access_course(session, facts) + match access_verdict(session.policy, facts) {
        Err(_) => Seq::empty(),
        Ok(source) => seq![(ApiAction::RunJob(session.job(source)), job_event(done))] + match done {
            Ok(OutputView::Runs(runs)) => registration(SessionView { runs, ..session }, 0),
            _ => Seq::empty(),
        },
    }
}

/// How it ends.
pub open spec fn session_end(
    session: SessionView,
    facts: RepoFacts,
    done: Result<OutputView, TaskFailure>,
) -> SessionView {
    match access_verdict(session.policy, facts) {
        Err(refusal) => session.at(Stage::Ended(Outcome::Refused(refusal))),
        Ok(_) => match done {
            Err(failure) => session.at(Stage::Ended(Outcome::Failed(failure))),
            Ok(OutputView::Refs(text)) => session.at(Stage::Ended(Outcome::Listed(text))),
            Ok(OutputView::Runs(runs)) => (SessionView { runs, ..session }).at(
                Stage::Ended(Outcome::Registered),
            ),
        },
    }
}

/// A session takes the course that `session_course` says, and ends as
/// `session_end` says. So nothing is registered of a job that failed, and what
/// succeeded is registered before it is answered.
pub proof fn law_session_course(
    session: SessionView,
    facts: RepoFacts,
    done: Result<OutputView, TaskFailure>,
)
    requires
        session.well_formed(),
        session.stage == Stage::<Seq<char>>::Access(AccessState::AskLocal),
        done is Ok ==> session.job(RepoSource::Remote).may_yield(done->Ok_0),
    ensures
        takes(session, session_course(session, facts, done)),
        session_after(session, session_course(session, facts, done)) == session_end(
            session,
            facts,
            done,
        ),
{
    law_access_of_session(session, facts);
    let access = access_course(session, facts);
    match access_verdict(session.policy, facts) {
        Err(_) => {
            assert(access + Seq::empty() =~= access);
        },
        Ok(source) => {
            let working = session.at(Stage::Work(source));
            let job = ApiAction::<Seq<char>, JobView>::RunJob(session.job(source));
            assert(working.job(source) == session.job(source));
            lemma_course_of_one(working, job, job_event(done));
            let work = seq![(job, job_event(done))];
            lemma_course_in_parts(session, access, work);
            match done {
                Ok(OutputView::Runs(runs)) => {
                    let storing = working.after(job_event(done));
                    lemma_registration(storing, 0);
                    lemma_same_registration(storing, SessionView { runs, ..session }, 0);
                    lemma_course_in_parts(working, work, registration(storing, 0));
                    lemma_course_in_parts(session, access, work + registration(storing, 0));
                },
                _ => {
                    assert(work + Seq::empty() =~= work);
                },
            }
        },
    }
}

/// Nothing follows the end of a session.
proof fn lemma_ended(session: SessionView, course: Course)
    requires
        session.stage is Ended,
        takes(session, course),
    ensures
        course =~= Seq::empty(),
{
}

/// There is one way to register runs.
proof fn lemma_only_registration(session: SessionView, leg: usize, course: Course)
    requires
        session.well_formed(),
        session.stage == Stage::<Seq<char>>::Store(leg),
        takes(session, course),
        session_after(session, course).stage is Ended,
    ensures
        course == registration(session, leg as int),
    decreases session.runs.len() - leg,
{
    reveal_with_fuel(takes, 3);
    reveal_with_fuel(session_after, 3);
    let stored = session.after(course[0].1);
    let rest = course.drop_first();
    assert(rest[0] == course[1]);
    let recorded = stored.after(rest[0].1);
    let more = rest.drop_first();
    if leg + 1 < session.runs.len() {
        lemma_only_registration(recorded, (leg + 1) as usize, more);
        lemma_same_registration(session, recorded, leg + 1);
    } else {
        lemma_ended(recorded, more);
    }
    assert(more == registration(session, leg + 1));
    assert(course =~= seq![course[0], course[1]] + more);
}

/// The course of a session from its job on.
proof fn lemma_only_work(session: SessionView, source: RepoSource, course: Course) -> (done: Result<
    OutputView,
    TaskFailure,
>)
    requires
        session.well_formed(),
        session.stage == Stage::<Seq<char>>::Work(source),
        takes(session, course),
        session_after(session, course).stage is Ended,
    ensures
        done is Ok ==> session.job(RepoSource::Remote).may_yield(done->Ok_0),
        course == seq![(ApiAction::RunJob(session.job(source)), job_event(done))] + match done {
            Ok(OutputView::Runs(runs)) => registration(SessionView { runs, ..session }, 0),
            _ => Seq::empty(),
        },
{
    let event = course[0].1;
    let next = session.after(event);
    let rest = course.drop_first();
    assert(course =~= seq![course[0]] + rest);
    match event {
        ApiEvent::JobDone(OutputView::Runs(runs)) => {
            lemma_only_registration(next, 0, rest);
            lemma_same_registration(next, SessionView { runs, ..session }, 0);
            Ok(OutputView::Runs(runs))
        },
        ApiEvent::JobDone(output) => {
            lemma_ended(next, rest);
            Ok(output)
        },
        ApiEvent::JobFailed(failure) => {
            lemma_ended(next, rest);
            Err(failure)
        },
        _ => arbitrary(),
    }
}

/// Every session that has ended has taken such a course: there are some answers
/// about access, and something that its job came to, for which its course is
/// that of `session_course`.
pub proof fn law_every_course(session: SessionView, course: Course)
    requires
        session.well_formed(),
        session.stage == Stage::<Seq<char>>::Access(AccessState::AskLocal),
        takes(session, course),
        session_after(session, course).stage is Ended,
    ensures
        exists|facts: RepoFacts, done: Result<OutputView, TaskFailure>|
            {
                &&& course == #[trigger] session_course(session, facts, done)
                &&& done is Ok ==> session.job(RepoSource::Remote).may_yield(done->Ok_0)
            },
{
    let yes = ApiEvent::<OutputView>::Answer(true);
    let facts = RepoFacts {
        is_local: course[0].1 == yes,
        resolves: course[1].1 == yes,
        is_within_roots: course[2].1 == yes,
    };
    let asked = access_course(session, facts);
    let n = asked.len() as int;
    let exit = session.at(access_exit(session, facts));
    assert(n <= course.len() && asked =~= course.take(n) && takes(exit, course.skip(n)) && session_after(
        exit,
        course.skip(n),
    ) == session_after(session, course)) by {
        reveal_with_fuel(takes, 4);
        reveal_with_fuel(session_after, 4);
        let rest = course.drop_first();
        assert(course.skip(1) =~= rest);
        if course.len() > 1 {
            assert(rest[0] == course[1]);
            assert(course.skip(2) =~= rest.drop_first());
        }
        if course.len() > 2 {
            assert(rest.drop_first()[0] == course[2]);
            assert(course.skip(3) =~= rest.drop_first().drop_first());
        }
    }
    let later = course.skip(n);
    assert(course =~= asked + later);
    match access_verdict(session.policy, facts) {
        Err(refusal) => {
            lemma_ended(exit, later);
            assert(course == session_course(session, facts, Err(arbitrary())));
        },
        Ok(source) => {
            let done = lemma_only_work(exit, source, later);
            assert(exit.job(source) == session.job(source));
            if let Ok(OutputView::Runs(runs)) = done {
                lemma_same_registration(
                    SessionView { runs, ..exit },
                    SessionView { runs, ..session },
                    0,
                );
            }
            assert(course == session_course(session, facts, done));
        },
    }
}

/// A scan that works is answered with the id of its run and where its report
/// is; a comparison with the ids of both runs and where they are compared.
pub proof fn law_success_is_answered(
    session: SessionView,
    facts: RepoFacts,
    runs: Seq<ScanRun<Seq<char>>>,
    reply: Reply<Seq<char>>,
)
    requires
        session.well_formed(),
        session.stage == Stage::<Seq<char>>::Access(AccessState::AskLocal),
        access_verdict(session.policy, facts) is Ok,
        session.job(RepoSource::Remote).may_yield(OutputView::Runs(runs)),
    ensures
        session_end(session, facts, Ok(OutputView::Runs(runs))).answers_with(reply) <==> reply == (
        if session.request is Scan {
            scan_reply(runs[0].run_id)
        } else {
            compare_reply(runs[0].run_id, runs[1].run_id)
        }),
{
}

/// The last thing done in a course, and what was before it.
proof fn lemma_last_act(session: SessionView, course: Course)
    requires
        takes(session, course),
        course.len() > 0,
    ensures
        takes(session, course.drop_last()),
        session_after(session, course.drop_last()).pending() == Some(course.last().0),
        settles(course.last().0, course.last().1),
        session_after(session, course) == session_after(session, course.drop_last()).after(
            course.last().1,
        ),
    decreases course.len(),
{
    let rest = course.drop_first();
    if course.len() == 1 {
        assert(course.drop_last() =~= Seq::empty());
        assert(rest =~= Seq::empty());
        reveal_with_fuel(session_after, 2);
    } else {
        lemma_last_act(session.after(course.first().1), rest);
        assert(course.drop_last().drop_first() =~= rest.drop_last());
        assert(course.drop_last().first() == course.first());
        assert(rest.last() == course.last());
    }
}

/// A course up to some point.
proof fn lemma_course_until(session: SessionView, course: Course, n: int)
    requires
        takes(session, course),
        0 <= n <= course.len(),
    ensures
        takes(session, course.take(n)),
        n < course.len() ==> session_after(session, course.take(n)).pending() == Some(course[n].0)
            && settles(course[n].0, course[n].1),
    decreases course.len(),
{
    if n == course.len() {
        assert(course.take(n) =~= course);
    } else {
        lemma_last_act(session, course);
        if n == course.len() - 1 {
            assert(course.take(n) =~= course.drop_last());
        } else {
            lemma_course_until(session, course.drop_last(), n);
            assert(course.drop_last().take(n) =~= course.take(n));
            assert(course.drop_last()[n] == course[n]);
        }
    }
}

/// `job` is the one that `session` is there for, on a repository from the given
/// source: on the repository that the request names, with its refs in their
/// order, and with submodules exactly where refs are scanned and the
/// configuration has it, wherever the repository is.
pub open spec fn is_job_of(session: SessionView, source: RepoSource, job: JobView) -> bool {
    &&& job.source == source
    &&& job.repo == session.repo
    &&& job.phase is Resolve && job.reports.len() == 0
    &&& job.listing <==> session.request is List
    &&& job.populate <==> {
        &&& !(session.request is List)
        &&& session.policy.submodule_breakdown
        &&& !session.policy.server_mode || session.policy.host_allowlist
    }
    &&& match session.request {
        Request::List => job.tasks.len() == 0,
        Request::Scan(task) => job.tasks.len() == 1 && job.tasks[0] == task,
        Request::Compare { label, baseline, current } => {
            &&& job.tasks.len() == 2
            &&& job.tasks[0].ref_name == baseline.ref_name
            &&& job.tasks[0].worktree == baseline.worktree
            &&& job.tasks[0].label == label + " ("@ + baseline.ref_name + ")"@
            &&& job.tasks[1].ref_name == current.ref_name
            &&& job.tasks[1].worktree == current.worktree
            &&& job.tasks[1].label == label + " ("@ + current.ref_name + ")"@
        },
    }
}

/// The session wants nothing done, answers with the error and logs nothing.
pub open spec fn answers_error(session: SessionView, status: int, msg: Seq<char>) -> bool {
    &&& session.pending() is None
    &&& forall|reply: Reply<Seq<char>>| #[trigger]
        session.answers_with(reply) <==> tells_error(reply, status, msg)
    &&& forall|line: Option<LogLine>| #[trigger] session.logs(line) <==> line is None
}

/// The session wants the job done that it is there for, on a repository from the
/// given source.
pub open spec fn wants_job(
    session: SessionView,
    source: RepoSource,
    action: Option<ApiAction<Seq<char>, JobView>>,
) -> bool {
    action matches Some(ApiAction::RunJob(job)) && is_job_of(session, source, job)
}

proof fn lemma_answers_error(session: SessionView, status: u16, msg: Seq<char>)
    requires
        session.pending() is None,
        forall|reply: Reply<Seq<char>>| #[trigger]
            session.answers_with(reply) <==> reply == error_reply(status, msg),
        forall|line: Option<LogLine>| #[trigger] session.logs(line) <==> line is None,
    ensures
        answers_error(session, status as int, msg),
{
    law_error_reply(status, msg);
}

/// What a session wants done after each thing, given what came of it, and before
/// anything. A repository that is not local is worked on from its URL; a local one
/// in place, once its path resolves and, on a server that faces the network, lies
/// under one of the directories configured; else the request is answered with the
/// reason, and nothing is worked on. (How runs are registered, one after the
/// other, is in `law_runs_are_registered`.)
pub proof fn law_next_action(session: SessionView, course: Course)
    requires
        session.well_formed(),
        session.stage == Stage::<Seq<char>>::Access(AccessState::AskLocal),
        takes(session, course),
    ensures
        ({
            let last = session_after(session, course);
            let next = last.pending();
            if course.len() == 0 {
                next == Some(
                    ApiAction::<Seq<char>, JobView>::Ask(
                        AccessQuestion::IsLocal { repo: session.repo },
                    ),
                )
            } else {
                match course.last() {
                    (ApiAction::Ask(AccessQuestion::IsLocal { repo }), ApiEvent::Answer(yes)) => {
                        &&& repo == session.repo
                        &&& if yes {
                            next == Some(
                                ApiAction::<Seq<char>, JobView>::Ask(
                                    AccessQuestion::Resolves { path: trimmed(session.repo) },
                                ),
                            )
                        } else {
                            wants_job(session, RepoSource::Remote, next)
                        }
                    },
                    (ApiAction::Ask(AccessQuestion::Resolves { path }), ApiEvent::Answer(yes)) => {
                        &&& path == trimmed(session.repo)
                        &&& if !yes {
                            answers_error(last, 403, "local repository path could not be resolved"@)
                        } else if !session.policy.server_mode {
                            wants_job(session, RepoSource::Local, next)
                        } else if !session.policy.has_scan_roots {
                            answers_error(
                                last,
                                403,
                                "local-path browsing is disabled on this server (no allowed_scan_roots configured)"@,
                            )
                        } else {
                            next == Some(
                                ApiAction::<Seq<char>, JobView>::Ask(AccessQuestion::IsWithinRoots),
                            )
                        }
                    },
                    (ApiAction::Ask(AccessQuestion::IsWithinRoots), ApiEvent::Answer(yes)) => {
                        &&& session.policy.server_mode && session.policy.has_scan_roots
                        &&& if yes {
                            wants_job(session, RepoSource::Local, next)
                        } else {
                            answers_error(
                                last,
                                403,
                                "local repository path is not within an allowed scan directory"@,
                            )
                        }
                    },
                    (ApiAction::RunJob(job), ApiEvent::JobFailed(failure)) => {
                        &&& is_job_of(session, job.source, job)
                        &&& next is None
                        &&& forall|reply: Reply<Seq<char>>| #[trigger]
                            last.answers_with(reply) <==> failure_reply(failure, reply)
                        &&& forall|line: Option<LogLine>| #[trigger]
                            last.logs(line) <==> line is Some && failure_logged(
                                match session.request {
                                    Request::List => "load_refs"@,
                                    Request::Scan(_) => "ref scan"@,
                                    Request::Compare { .. } => "ref compare"@,
                                },
                                failure,
                                line->0,
                            )
                    },
                    (ApiAction::RunJob(job), ApiEvent::JobDone(OutputView::Refs(text))) => {
                        &&& is_job_of(session, job.source, job)
                        &&& next is None
                        &&& forall|reply: Reply<Seq<char>>| #[trigger]
                            last.answers_with(reply) <==> reply.status == 200 && reply.body == text
                        &&& forall|line: Option<LogLine>| #[trigger]
                            last.logs(line) <==> line is None
                    },
                    (ApiAction::RunJob(job), ApiEvent::JobDone(OutputView::Runs(runs))) => {
                        &&& is_job_of(session, job.source, job)
                        &&& runs.len() == job.tasks.len()
                        &&& next == Some(
                            ApiAction::<Seq<char>, JobView>::StoreArtifacts {
                                leg: 0,
                                run_id: runs[0].run_id,
                            },
                        )
                    },
                    (ApiAction::StoreArtifacts { leg, run_id }, _) => {
                        &&& next matches Some(ApiAction::RecordRun { leg: same, run_id: id, .. })
                        &&& same == leg
                        &&& id == run_id
                    },
                    (ApiAction::RecordRun { .. }, _) => true,
                    _ => false,
                }
            }
        }),
{
    lemma_session_keeps(session, course);
    if course.len() > 0 {
        lemma_last_act(session, course);
        let front = course.drop_last();
        lemma_session_keeps(session, front);
        let before = session_after(session, front);
        let last = session_after(session, course);
        lemma_access_stages(session, front);
        if let Stage::Ended(Outcome::Refused(refusal)) = last.stage {
            lemma_answers_error(last, STATUS_FORBIDDEN, refusal.text());
        }
    }
}

/// The last question is asked only by a server that faces the network and has
/// directories configured.
proof fn lemma_access_stages(session: SessionView, course: Course)
    requires
        session.well_formed(),
        session.stage == Stage::<Seq<char>>::Access(AccessState::AskLocal),
        takes(session, course),
    ensures
        session_after(session, course).stage == Stage::<Seq<char>>::Access(AccessState::AskWithin)
            ==> session.policy.server_mode && session.policy.has_scan_roots,
    decreases course.len(),
{
    if course.len() > 0 {
        lemma_last_act(session, course);
        lemma_session_keeps(session, course.drop_last());
        lemma_access_stages(session, course.drop_last());
    }
}

/// The job that a session hands out, in any course of it, is the one that it is
/// there for.
pub proof fn law_job_of_session(session: SessionView, course: Course, j: int, job: JobView)
    requires
        session.well_formed(),
        session.stage == Stage::<Seq<char>>::Access(AccessState::AskLocal),
        takes(session, course),
        0 <= j < course.len(),
        course[j].0 == ApiAction::<Seq<char>, JobView>::RunJob(job),
    ensures
        is_job_of(session, job.source, job),
        job.well_formed(),
{
    lemma_course_until(session, course, j);
    lemma_session_keeps(session, course.take(j));
}

/// The label under which the run of ref `leg` is to be registered.
pub open spec fn wanted_label(request: Request<Seq<char>>, leg: int) -> Seq<char> {
    match request {
        Request::List => Seq::empty(),
        Request::Scan(task) => task.label,
        Request::Compare { label, baseline, current } => label + " ("@ + (if leg == 0 {
            baseline.ref_name
        } else {
            current.ref_name
        }) + ")"@,
    }
}

/// How the runs are registered that the job came to as item `j` of a course: run
/// after run, first its artifacts are stored and then it is recorded, each under
/// its own id and its own label; and then the session has ended.
pub proof fn law_runs_are_registered(
    session: SessionView,
    course: Course,
    j: int,
    runs: Seq<ScanRun<Seq<char>>>,
)
    requires
        session.well_formed(),
        session.stage == Stage::<Seq<char>>::Access(AccessState::AskLocal),
        takes(session, course),
        0 <= j < course.len(),
        course[j].1 == ApiEvent::JobDone(OutputView::Runs(runs)),
    ensures
        course[j].0 is RunJob,
        session.request is Scan ==> runs.len() == 1,
        session.request is Compare ==> runs.len() == 2,
        !(session.request is List),
        course.len() <= j + 1 + 2 * runs.len(),
        session_after(session, course).pending() is None <==> course.len() == j + 1 + 2
            * runs.len(),
        session_after(session, course).runs == runs,
        forall|leg: int|
            0 <= leg < runs.len() && j + 1 + 2 * leg < course.len() ==> course[j + 1 + 2 * leg].0
                == (ApiAction::<Seq<char>, JobView>::StoreArtifacts {
                leg: leg as usize,
                run_id: (#[trigger] runs[leg]).run_id,
            }),
        forall|leg: int|
            0 <= leg < runs.len() && j + 2 + 2 * leg < course.len() ==> course[j + 2 + 2 * leg].0
                == (ApiAction::<Seq<char>, JobView>::RecordRun {
                leg: leg as usize,
                run_id: (#[trigger] runs[leg]).run_id,
                label: wanted_label(session.request, leg),
            }),
{
    lemma_registered(session, course, j, runs);
}

proof fn lemma_registered(
    session: SessionView,
    course: Course,
    j: int,
    runs: Seq<ScanRun<Seq<char>>>,
)
    requires
        session.well_formed(),
        session.stage == Stage::<Seq<char>>::Access(AccessState::AskLocal),
        takes(session, course),
        0 <= j < course.len(),
        course[j].1 == ApiEvent::JobDone(OutputView::Runs(runs)),
    ensures
        course[j].0 is RunJob,
        !(session.request is List),
        runs.len() == session.request.tasks().len(),
        session_after(session, course).runs == runs,
        match session_after(session, course).stage {
            Stage::Store(leg) => leg < runs.len() && course.len() == j + 1 + 2 * leg,
            Stage::Record(leg) => leg < runs.len() && course.len() == j + 2 + 2 * leg,
            Stage::Ended(outcome) => outcome is Registered && course.len() == j + 1 + 2
                * runs.len(),
            _ => false,
        },
        forall|leg: int|
            0 <= leg < runs.len() && j + 1 + 2 * leg < course.len() ==> course[j + 1 + 2 * leg].0
                == (ApiAction::<Seq<char>, JobView>::StoreArtifacts {
                leg: leg as usize,
                run_id: (#[trigger] runs[leg]).run_id,
            }),
        forall|leg: int|
            0 <= leg < runs.len() && j + 2 + 2 * leg < course.len() ==> course[j + 2 + 2 * leg].0
                == (ApiAction::<Seq<char>, JobView>::RecordRun {
                leg: leg as usize,
                run_id: (#[trigger] runs[leg]).run_id,
                label: wanted_label(session.request, leg),
            }),
    decreases course.len(),
{
    lemma_last_act(session, course);
    lemma_session_keeps(session, course);
    let front = course.drop_last();
    lemma_session_keeps(session, front);
    let before = session_after(session, front);
    let last = session_after(session, course);
    if j < front.len() {
        assert(front[j] == course[j]);
        lemma_registered(session, front, j, runs);
        assert forall|leg: int|
            0 <= leg < runs.len() && j + 1 + 2 * leg < course.len() implies course[j + 1 + 2
            * leg].0 == (ApiAction::<Seq<char>, JobView>::StoreArtifacts {
            leg: leg as usize,
            run_id: (#[trigger] runs[leg]).run_id,
        }) by {
            if j + 1 + 2 * leg < front.len() {
                assert(front[j + 1 + 2 * leg] == course[j + 1 + 2 * leg]);
            }
        }
        assert forall|leg: int|
            0 <= leg < runs.len() && j + 2 + 2 * leg < course.len() implies course[j + 2 + 2
            * leg].0 == (ApiAction::<Seq<char>, JobView>::RecordRun {
            leg: leg as usize,
            run_id: (#[trigger] runs[leg]).run_id,
            label: wanted_label(session.request, leg),
        }) by {
            if j + 2 + 2 * leg < front.len() {
                assert(front[j + 2 + 2 * leg] == course[j + 2 + 2 * leg]);
            }
        }
    } else {
        assert(course.last() == course[j]);
    }
}

/// A request to list refs that names no repository, and one to scan or to compare
/// with a ref name that is not accepted, is answered with status 400 and the
/// reason; nothing is done.
pub proof fn law_bad_requests_are_answered(
    scan: ScanRefQuery,
    compare: CompareRefsQuery,
    policy: ServerPolicy,
    a: Seq<char>,
    b: Seq<char>,
)
    ensures
        answers_error(list_session(None, policy), 400, "missing ?repo="@),
        !valid_git_ref(scan.ref_name@) ==> answers_error(
            scan_session(scan, policy, a),
            400,
            "invalid ref_name"@,
        ),
        !valid_git_ref(compare.baseline_ref@) || !valid_git_ref(compare.current_ref@)
            ==> answers_error(compare_session(compare, policy, a, b), 400, "invalid ref name"@),
{
    lemma_answers_error(list_session(None, policy), STATUS_BAD_REQUEST, "missing ?repo="@);
    if !valid_git_ref(scan.ref_name@) {
        lemma_answers_error(
            scan_session(scan, policy, a),
            STATUS_BAD_REQUEST,
            "invalid ref_name"@,
        );
    }
    if !valid_git_ref(compare.baseline_ref@) || !valid_git_ref(compare.current_ref@) {
        lemma_answers_error(
            compare_session(compare, policy, a, b),
            STATUS_BAD_REQUEST,
            "invalid ref name"@,
        );
    }
}

/// A session is about what its request says: the repository, the policy, the refs
/// and the worktrees, all as they are given. A label that is asked for is taken as
/// it is; else it is made of the repository and the ref, or of the repository and
/// `compare`.
pub proof fn law_sessions_are_what_was_asked_for(
    repo: Seq<char>,
    scan: ScanRefQuery,
    compare: CompareRefsQuery,
    policy: ServerPolicy,
    a: Seq<char>,
    b: Seq<char>,
)
    ensures
        ({
            let session = list_session(Some(repo), policy);
            &&& session.policy == policy && session.repo == repo
            &&& session.request is List
            &&& session.stage == Stage::<Seq<char>>::Access(AccessState::AskLocal)
            &&& session.well_formed()
        }),
        ({
            let session = scan_session(scan, policy, a);
            &&& session.policy == policy && session.repo == scan.repo@
            &&& session.request matches Request::Scan(task)
            &&& task.ref_name == scan.ref_name@
            &&& task.worktree == a
            &&& scan.label is Some ==> task.label == scan.label->0@
            &&& scan.label is None ==> task.label == scan_label(scan.repo@, scan.ref_name@)
            &&& session.stage is Access <==> valid_git_ref(scan.ref_name@)
            &&& session.stage is Access ==> session.stage == Stage::<Seq<char>>::Access(
                AccessState::AskLocal,
            )
            &&& session.well_formed()
        }),
        ({
            let session = compare_session(compare, policy, a, b);
            &&& session.policy == policy && session.repo == compare.repo@
            &&& session.request matches Request::Compare { label, baseline, current }
            &&& baseline.ref_name == compare.baseline_ref@ && baseline.worktree == a
            &&& current.ref_name == compare.current_ref@ && current.worktree == b
            &&& compare.label is Some ==> label == compare.label->0@
            &&& compare.label is None ==> label == scan_label(compare.repo@, "compare"@)
            &&& session.stage is Access <==> valid_git_ref(compare.baseline_ref@)
                && valid_git_ref(compare.current_ref@)
            &&& session.stage is Access ==> session.stage == Stage::<Seq<char>>::Access(
                AccessState::AskLocal,
            )
            &&& session.well_formed()
        }),
{
}

/// The answer to a scan is status 200 with the run's id and, made of it, where its
/// report is.
pub open spec fn tells_scan(reply: Reply<Seq<char>>, id: Seq<char>) -> bool {
    &&& reply.status == 200
    &&& reply.body == "{\"html_url\":"@ + json_string("/runs/html/"@ + id) + ",\"run_id\":"@
        + json_string(id) + "}"@
}

/// The answer to a comparison is status 200 with the ids of both runs and, made
/// of them in this order, where they are compared.
pub open spec fn tells_comparison(
    reply: Reply<Seq<char>>,
    baseline: Seq<char>,
    current: Seq<char>,
) -> bool {
    &&& reply.status == 200
    &&& reply.body == "{\"baseline_run_id\":"@ + json_string(baseline) + ",\"compare_url\":"@
        + json_string("/compare?a="@ + baseline + "&b="@ + current) + ",\"current_run_id\":"@
        + json_string(current) + "}"@
}

proof fn lemma_tells_scan(id: Seq<char>)
    ensures
        tells_scan(scan_reply(id), id),
{
    let url = "/runs/html/"@ + id;
    reveal_strlit("html_url");
    reveal_strlit("run_id");
    reveal_strlit("{\"html_url\":");
    reveal_strlit(",\"run_id\":");
    reveal_strlit("}");
    law_json_string_of_plain_text("html_url"@);
    law_json_string_of_plain_text("run_id"@);
    let first = seq![("html_url"@, url)];
    let second = seq![("run_id"@, id)];
    law_json_members(first, second, "html_url"@, url);
    law_json_members(first, second, "run_id"@, id);
    assert(seq![("html_url"@, url), ("run_id"@, id)] =~= first + second);
    law_json_members(first + second, Seq::empty(), "run_id"@, id);
    assert("{\"html_url\":"@ =~= seq!['{'] + json_string("html_url"@) + seq![':']);
    assert(",\"run_id\":"@ =~= seq![','] + json_string("run_id"@) + seq![':']);
    assert(scan_reply(id).body =~= "{\"html_url\":"@ + json_string(url) + ",\"run_id\":"@
        + json_string(id) + "}"@);
}

proof fn lemma_tells_comparison(baseline: Seq<char>, current: Seq<char>)
    ensures
        tells_comparison(compare_reply(baseline, current), baseline, current),
{
    let url = "/compare?a="@ + baseline + "&b="@ + current;
    reveal_strlit("baseline_run_id");
    reveal_strlit("compare_url");
    reveal_strlit("current_run_id");
    reveal_strlit("{\"baseline_run_id\":");
    reveal_strlit(",\"compare_url\":");
    reveal_strlit(",\"current_run_id\":");
    reveal_strlit("}");
    law_json_string_of_plain_text("baseline_run_id"@);
    law_json_string_of_plain_text("compare_url"@);
    law_json_string_of_plain_text("current_run_id"@);
    let first = seq![("baseline_run_id"@, baseline)];
    let second = seq![("compare_url"@, url)];
    let third = seq![("current_run_id"@, current)];
    law_json_members(first, second, "baseline_run_id"@, baseline);
    law_json_members(first + second, third, "compare_url"@, url);
    law_json_members(first + second + third, third, "current_run_id"@, current);
    assert(seq![
        ("baseline_run_id"@, baseline),
        ("compare_url"@, url),
        ("current_run_id"@, current),
    ] =~= first + second + third);
    assert("{\"baseline_run_id\":"@ =~= seq!['{'] + json_string("baseline_run_id"@) + seq![':']);
    assert(",\"compare_url\":"@ =~= seq![','] + json_string("compare_url"@) + seq![':']);
    assert(",\"current_run_id\":"@ =~= seq![','] + json_string("current_run_id"@) + seq![':']);
    assert(compare_reply(baseline, current).body =~= "{\"baseline_run_id\":"@ + json_string(
        baseline,
    ) + ",\"compare_url\":"@ + json_string(url) + ",\"current_run_id\":"@ + json_string(current)
        + "}"@);
}

/// What a list of refs is for: the repository that was asked for is listed, and
/// the answer is the list, all of it and nothing else, of any length.
pub proof fn law_listing(
    repo: Seq<char>,
    policy: ServerPolicy,
    course: Course,
    j: int,
    job: JobView,
    text: Seq<char>,
    reply: Reply<Seq<char>>,
)
    requires
        takes(list_session(Some(repo), policy), course),
        0 <= j < course.len(),
        course[j] == (
            ApiAction::<Seq<char>, JobView>::RunJob(job),
            ApiEvent::JobDone(OutputView::Refs(text)),
        ),
    ensures
        job.repo == repo,
        job.listing,
        job.phase is Resolve,
        j == course.len() - 1,
        ({
            let last = session_after(list_session(Some(repo), policy), course);
            &&& last.pending() is None
            &&& last.answers_with(reply) <==> reply.status == 200 && reply.body == text
        }),
{
    let session = list_session(Some(repo), policy);
    law_job_of_session(session, course, j, job);
    let upto = course.take(j + 1);
    lemma_course_until(session, course, j + 1);
    assert(upto.last() == course[j]);
    law_next_action(session, upto);
    assert(course.take(course.len() as int) =~= course);
}

/// What a scan is for: the ref that was asked for, in the repository that was
/// asked for, is checked out and scanned under its label; what the scan came to is
/// registered under its id and that label; and the answer tells that id.
pub proof fn law_scan(
    q: ScanRefQuery,
    policy: ServerPolicy,
    worktree: Seq<char>,
    course: Course,
    j: int,
    job: JobView,
    talk: Talk,
    reply: Reply<Seq<char>>,
)
    requires
        valid_git_ref(q.ref_name@),
        takes(scan_session(q, policy, worktree), course),
        session_after(scan_session(q, policy, worktree), course).stage is Ended,
        0 <= j < course.len(),
        follows(job, talk),
        outcome(job, talk).phase is Scanned,
        course[j] == (
            ApiAction::<Seq<char>, JobView>::RunJob(job),
            ApiEvent::JobDone(OutputView::Runs(outcome(job, talk).reports)),
        ),
    ensures
        job.repo == q.repo@,
        job.populate <==> policy.submodule_breakdown && (!policy.server_mode
            || policy.host_allowlist),
        creations(talk) == seq![(q.ref_name@, worktree)],
        runs_told(talk).len() == 1,
        ({
            let run = runs_told(talk)[0];
            let label = if q.label is Some {
                q.label->0@
            } else {
                scan_label(q.repo@, q.ref_name@)
            };
            &&& job.tasks[0].label == label
            &&& course.len() == j + 3
            &&& course[j + 1].0 == (ApiAction::<Seq<char>, JobView>::StoreArtifacts {
                leg: 0,
                run_id: run.run_id,
            })
            &&& course[j + 2].0 == (ApiAction::<Seq<char>, JobView>::RecordRun {
                leg: 0,
                run_id: run.run_id,
                label,
            })
            &&& session_after(scan_session(q, policy, worktree), course).answers_with(reply)
                <==> tells_scan(reply, run.run_id)
        }),
{
    let session = scan_session(q, policy, worktree);
    let reports = outcome(job, talk).reports;
    law_job_of_session(session, course, j, job);
    law_runs_are_registered(session, course, j, reports);
    lemma_registered(session, course, j, reports);
    lemma_session_keeps(session, course);
    law_refs_are_checked_out_in_order(job, talk);
    law_runs_are_those_of_the_refs(job, talk);
    assert(creations(talk)[0] == (job.tasks[0].ref_name, job.tasks[0].worktree));
    assert(creations(talk) =~= seq![(q.ref_name@, worktree)]);
    let run = runs_told(talk)[0];
    assert(reports_run(reports[0], run, job.tasks[0].ref_name));
    lemma_tells_scan(run.run_id);
}

/// What a comparison is for: first the baseline and then the current ref is
/// checked out and scanned, whether the repository is local or remote; what each
/// scan came to is registered under its own id and a label that names its own
/// ref; and the answer tells the baseline's id as the baseline's and the current
/// one's as the current one's.
pub proof fn law_comparison(
    q: CompareRefsQuery,
    policy: ServerPolicy,
    a: Seq<char>,
    b: Seq<char>,
    course: Course,
    j: int,
    job: JobView,
    talk: Talk,
    reply: Reply<Seq<char>>,
)
    requires
        valid_git_ref(q.baseline_ref@),
        valid_git_ref(q.current_ref@),
        takes(compare_session(q, policy, a, b), course),
        session_after(compare_session(q, policy, a, b), course).stage is Ended,
        0 <= j < course.len(),
        follows(job, talk),
        outcome(job, talk).phase is Scanned,
        course[j] == (
            ApiAction::<Seq<char>, JobView>::RunJob(job),
            ApiEvent::JobDone(OutputView::Runs(outcome(job, talk).reports)),
        ),
    ensures
        job.repo == q.repo@,
        job.populate <==> policy.submodule_breakdown && (!policy.server_mode
            || policy.host_allowlist),
        creations(talk) == seq![(q.baseline_ref@, a), (q.current_ref@, b)],
        runs_told(talk).len() == 2,
        ({
            let baseline = runs_told(talk)[0];
            let current = runs_told(talk)[1];
            let label = if q.label is Some {
                q.label->0@
            } else {
                scan_label(q.repo@, "compare"@)
            };
            let of_baseline = label + " ("@ + q.baseline_ref@ + ")"@;
            let of_current = label + " ("@ + q.current_ref@ + ")"@;
            &&& job.tasks[0].label == of_baseline
            &&& job.tasks[1].label == of_current
            &&& course.len() == j + 5
            &&& course[j + 1].0 == (ApiAction::<Seq<char>, JobView>::StoreArtifacts {
                leg: 0,
                run_id: baseline.run_id,
            })
            &&& course[j + 2].0 == (ApiAction::<Seq<char>, JobView>::RecordRun {
                leg: 0,
                run_id: baseline.run_id,
                label: of_baseline,
            })
            &&& course[j + 3].0 == (ApiAction::<Seq<char>, JobView>::StoreArtifacts {
                leg: 1,
                run_id: current.run_id,
            })
            &&& course[j + 4].0 == (ApiAction::<Seq<char>, JobView>::RecordRun {
                leg: 1,
                run_id: current.run_id,
                label: of_current,
            })
            &&& session_after(compare_session(q, policy, a, b), course).answers_with(reply)
                <==> tells_comparison(reply, baseline.run_id, current.run_id)
        }),
{
    let session = compare_session(q, policy, a, b);
    let reports = outcome(job, talk).reports;
    law_job_of_session(session, course, j, job);
    law_runs_are_registered(session, course, j, reports);
    lemma_registered(session, course, j, reports);
    lemma_session_keeps(session, course);
    law_refs_are_checked_out_in_order(job, talk);
    law_runs_are_those_of_the_refs(job, talk);
    assert(creations(talk)[0] == (job.tasks[0].ref_name, job.tasks[0].worktree));
    assert(creations(talk)[1] == (job.tasks[1].ref_name, job.tasks[1].worktree));
    assert(creations(talk) =~= seq![(q.baseline_ref@, a), (q.current_ref@, b)]);
    let baseline = runs_told(talk)[0];
    let current = runs_told(talk)[1];
    assert(reports_run(reports[0], baseline, job.tasks[0].ref_name));
    assert(reports_run(reports[1], current, job.tasks[1].ref_name));
    assert(course[j + 1 + 2 * 1].0 == course[j + 3].0);
    assert(course[j + 2 + 2 * 1].0 == course[j + 4].0);
    lemma_tells_comparison(baseline.run_id, current.run_id);
}

/// What can come of what a session wants done: a yes or a no of a question; of a
/// job a failure, and else a list where it lists and one run for each of its refs
/// where it scans; and of storing and recording that they are done.
pub proof fn law_what_can_come_of_an_action(
    action: ApiAction<Seq<char>, JobView>,
    yes: bool,
    failure: TaskFailure,
    text: Seq<char>,
    runs: Seq<ScanRun<Seq<char>>>,
)
    ensures
        settles(action, ApiEvent::Answer(yes)) <==> action is Ask,
        settles(action, ApiEvent::JobFailed(failure)) <==> action is RunJob,
        settles(action, ApiEvent::JobDone(OutputView::Refs(text))) <==> {
            action matches ApiAction::RunJob(job) && job.listing
        },
        settles(action, ApiEvent::JobDone(OutputView::Runs(runs))) <==> {
            action matches ApiAction::RunJob(job) && !job.listing && runs.len() == job.tasks.len()
        },
        settles(action, ApiEvent::Done) <==> action is StoreArtifacts || action is RecordRun,
{
}

/// In contracts strings are their characters, and nothing else of an action or an
/// event is lost or changed.
pub proof fn law_session_views(
    a: String,
    b: String,
    leg: usize,
    yes: bool,
    question: AccessQuestion<String>,
    job: GitJob,
    output: JobOutput,
    failure: TaskFailure,
)
    ensures
        ApiAction::<String, GitJob>::Ask(question)@ == ApiAction::<Seq<char>, JobView>::Ask(
            question@,
        ),
        ApiAction::<String, GitJob>::RunJob(job)@ == ApiAction::<Seq<char>, JobView>::RunJob(job@),
        (ApiAction::<String, GitJob>::StoreArtifacts { leg, run_id: a })@ == (ApiAction::<
            Seq<char>,
            JobView,
        >::StoreArtifacts { leg, run_id: a@ }),
        (ApiAction::<String, GitJob>::RecordRun { leg, run_id: a, label: b })@ == (ApiAction::<
            Seq<char>,
            JobView,
        >::RecordRun { leg, run_id: a@, label: b@ }),
        ApiEvent::<JobOutput>::Answer(yes)@ == ApiEvent::<OutputView>::Answer(yes),
        ApiEvent::JobDone(output)@ == ApiEvent::JobDone(output@),
        ApiEvent::<JobOutput>::JobFailed(failure)@ == ApiEvent::<OutputView>::JobFailed(failure),
        ApiEvent::<JobOutput>::Done@ == ApiEvent::<OutputView>::Done,
{
}

} // verus!
