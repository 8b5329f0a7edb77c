//! May a request reach a repository on the server's own disk?
//!
//! The decision takes at most three questions, asked one after the other, each
//! of which is answered from outside with yes or no.

use vstd::prelude::*;
use vstd::string::*;

use crate::policy::ServerPolicy;
use crate::text::{trim, trimmed};

verus! {

/// Where a repository is taken from.
#[derive(Clone, Copy, Debug, PartialEq, Eq, Structural)]
pub enum RepoSource {
    /// It lies on the server's disk and is used in place.
    Local,
    /// It is cloned from its URL, or fetched where it has been cloned before.
    Remote,
}

/// Why a local repository is out of reach.
#[derive(Clone, Copy, Debug, PartialEq, Eq, Structural)]
pub enum AccessRefusal {
    /// Its path does not lead anywhere.
    Unresolved,
    /// No directory is configured under which scans are allowed.
    Disabled,
    /// It lies under none of the directories configured.
    Outside,
}

impl AccessRefusal {
    /// The message for a refusal.
    pub open spec fn text(self) -> Seq<char> {
        match self {
            AccessRefusal::Unresolved => "local repository path could not be resolved"@,
            AccessRefusal::Disabled =>
                "local-path browsing is disabled on this server (no allowed_scan_roots configured)"@,
            AccessRefusal::Outside =>
                "local repository path is not within an allowed scan directory"@,
        }
    }

    /// The message for a refusal.
    pub fn message(&self) -> (msg: &'static str)
        ensures
            msg@ == self.text(),
    {
        match self {
            AccessRefusal::Unresolved => "local repository path could not be resolved",
            AccessRefusal::Disabled =>
                "local-path browsing is disabled on this server (no allowed_scan_roots configured)",
            AccessRefusal::Outside =>
                "local repository path is not within an allowed scan directory",
        }
    }
}

/// A question that the decision takes. `S` is `String`; in contracts it is the sequence of
/// the characters.
#[derive(Debug, PartialEq, Eq)]
pub enum AccessQuestion<S> {
    /// Does `repo` name a repository on disk, rather than a URL?
    IsLocal { repo: S },
    /// Can `path` be made canonical?
    Resolves { path: S },
    /// Is the canonical path within one of the allowed directories?
    IsWithinRoots,
}

impl View for AccessQuestion<String> {
    type V = AccessQuestion<Seq<char>>;

    open spec fn view(&self) -> AccessQuestion<Seq<char>> {
        match self {
            AccessQuestion::IsLocal { repo } => AccessQuestion::IsLocal { repo: repo@ },
            AccessQuestion::Resolves { path } => AccessQuestion::Resolves { path: path@ },
            AccessQuestion::IsWithinRoots => AccessQuestion::IsWithinRoots,
        }
    }
}

/// How far the decision has come.
#[derive(Clone, Copy)]
pub enum AccessState {
    AskLocal,
    AskResolves,
    AskWithin,
    Decided(Result<RepoSource, AccessRefusal>),
}

/// What is asked in a state, for a repository.
pub open spec fn access_question(state: AccessState, repo: Seq<char>) -> Option<
    AccessQuestion<Seq<char>>,
> {
    match state {
        AccessState::AskLocal => Some(AccessQuestion::IsLocal { repo }),
        AccessState::AskResolves => Some(AccessQuestion::Resolves { path: trimmed(repo) }),
        AccessState::AskWithin => Some(AccessQuestion::IsWithinRoots),
        AccessState::Decided(_) => None,
    }
}

/// What becomes of a state once its question is answered.
pub open spec fn access_next(state: AccessState, policy: ServerPolicy, yes: bool) -> AccessState {
    match state {
        AccessState::AskLocal => if yes {
            AccessState::AskResolves
        } else {
            AccessState::Decided(Ok(RepoSource::Remote))
        },
        AccessState::AskResolves => if !yes {
            AccessState::Decided(Err(AccessRefusal::Unresolved))
        } else if !policy.server_mode {
            AccessState::Decided(Ok(RepoSource::Local))
        } else if !policy.has_scan_roots {
            AccessState::Decided(Err(AccessRefusal::Disabled))
        } else {
            AccessState::AskWithin
        },
        AccessState::AskWithin => if yes {
            AccessState::Decided(Ok(RepoSource::Local))
        } else {
            AccessState::Decided(Err(AccessRefusal::Outside))
        },
        AccessState::Decided(verdict) => AccessState::Decided(verdict),
    }
}

/// Decide whether a request may browse the repository it names: one that is no
/// local path goes the remote way; a local one must resolve and, where the
/// server faces the network, lie under one of the allowed scan directories.
/// This is where the decision begins.
pub fn resolve_local_repo() -> (state: AccessState)
    ensures
        state == AccessState::AskLocal,
{
    AccessState::AskLocal
}

impl AccessState {
    /// What is asked next; `None` once it is decided.
    pub fn question(&self, repo: &str) -> (question: Option<AccessQuestion<String>>)
        ensures
            question is Some <==> access_question(*self, repo@) is Some,
            question is Some ==> question->0@ == access_question(*self, repo@)->0,
    {
        match self {
            AccessState::AskLocal => Some(AccessQuestion::IsLocal { repo: repo.to_owned() }),
            AccessState::AskResolves => Some(AccessQuestion::Resolves { path: trim(repo).to_owned() }),
            AccessState::AskWithin => Some(AccessQuestion::IsWithinRoots),
            AccessState::Decided(_) => None,
        }
    }

    /// The state after the answer to its question.
    pub fn answered(self, policy: &ServerPolicy, yes: bool) -> (next: AccessState)
        ensures
            next == access_next(self, *policy, yes),
    {
        match self {
            AccessState::AskLocal => if yes {
                AccessState::AskResolves
            } else {
                AccessState::Decided(Ok(RepoSource::Remote))
            },
            AccessState::AskResolves => if !yes {
                AccessState::Decided(Err(AccessRefusal::Unresolved))
            } else if !policy.server_mode {
                AccessState::Decided(Ok(RepoSource::Local))
            } else if !policy.has_scan_roots {
                AccessState::Decided(Err(AccessRefusal::Disabled))
            } else {
                AccessState::AskWithin
            },
            AccessState::AskWithin => if yes {
                AccessState::Decided(Ok(RepoSource::Local))
            } else {
                AccessState::Decided(Err(AccessRefusal::Outside))
            },
            AccessState::Decided(verdict) => AccessState::Decided(verdict),
        }
    }
}

/// The answers to the three questions, asked or not.
pub struct RepoFacts {
    pub is_local: bool,
    pub resolves: bool,
    pub is_within_roots: bool,
}

/// The decision, given all the answers.
pub open spec fn access_verdict(policy: ServerPolicy, facts: RepoFacts) -> Result<
    RepoSource,
    AccessRefusal,
> {
    if !facts.is_local {
        Ok(RepoSource::Remote)
    } else if !facts.resolves {
        Err(AccessRefusal::Unresolved)
    } else if policy.server_mode && !policy.has_scan_roots {
        Err(AccessRefusal::Disabled)
    } else if policy.server_mode && !facts.is_within_roots {
        Err(AccessRefusal::Outside)
    } else {
        Ok(RepoSource::Local)
    }
}

/// The questions that the decision takes, in their order, with their answers.
pub open spec fn access_talk(policy: ServerPolicy, repo: Seq<char>, facts: RepoFacts) -> Seq<
    (AccessQuestion<Seq<char>>, bool),
> {
    let first = (AccessQuestion::IsLocal { repo }, facts.is_local);
    let second = (AccessQuestion::Resolves { path: trimmed(repo) }, facts.resolves);
    let third = (AccessQuestion::IsWithinRoots, facts.is_within_roots);
    if !facts.is_local {
        seq![first]
    } else if !facts.resolves || !policy.server_mode || !policy.has_scan_roots {
        seq![first, second]
    } else {
        seq![first, second, third]
    }
}

/// The state of the decision after the first `n` answers of a talk.
pub open spec fn access_after(
    policy: ServerPolicy,
    talk: Seq<(AccessQuestion<Seq<char>>, bool)>,
    n: nat,
) -> AccessState
    decreases n,
{
    if n == 0 {
        AccessState::AskLocal
    } else {
        access_next(access_after(policy, talk, (n - 1) as nat), policy, talk[n - 1].1)
    }
}

/// The questions asked are those of `access_talk`, these only and in this order,
/// and then it is decided as `access_verdict` says. So a URL is never looked up on
/// disk, and the allowed directories are consulted only by a server that faces
/// the network and has some.
pub proof fn law_access_talk(policy: ServerPolicy, repo: Seq<char>, facts: RepoFacts)
    ensures
        ({
            let talk = access_talk(policy, repo, facts);
            &&& forall|k: nat|
                k < talk.len() ==> access_question(#[trigger] access_after(policy, talk, k), repo)
                    == Some(talk[k as int].0)
            &&& access_after(policy, talk, talk.len()) == AccessState::Decided(
                access_verdict(policy, facts),
            )
        }),
{
    reveal_with_fuel(access_after, 4);
    let talk = access_talk(policy, repo, facts);
    assert forall|k: nat| k < talk.len() implies access_question(
        #[trigger] access_after(policy, talk, k),
        repo,
    ) == Some(talk[k as int].0) by {
        assert(k == 0 || k == 1 || k == 2);
    }
}

/// A local repository is reached exactly where its path resolves and, on a
/// server that faces the network, lies under one of the directories configured;
/// whatever is no local path is taken from its URL.
pub proof fn law_access_verdict(policy: ServerPolicy, facts: RepoFacts)
    ensures
        access_verdict(policy, facts) == Ok::<RepoSource, AccessRefusal>(RepoSource::Local) <==> {
            &&& facts.is_local
            &&& facts.resolves
            &&& policy.server_mode ==> policy.has_scan_roots && facts.is_within_roots
        },
        access_verdict(policy, facts) == Ok::<RepoSource, AccessRefusal>(RepoSource::Remote)
            <==> !facts.is_local,
{
}

/// Which questions are asked, and which not. The first is always whether the
/// repository, as it was named, is local; only of a local one it is asked whether
/// its path, without the blanks around it, resolves; and only of one that does,
/// on a server that faces the network and has directories configured, whether it
/// lies under one of them.
pub proof fn law_access_questions(policy: ServerPolicy, repo: Seq<char>, facts: RepoFacts)
    ensures
        ({
            let talk = access_talk(policy, repo, facts);
            let within = facts.is_local && facts.resolves && policy.server_mode
                && policy.has_scan_roots;
            &&& talk.len() == 1 + (if facts.is_local {
                1int
            } else {
                0
            }) + (if within {
                1int
            } else {
                0
            })
            &&& talk[0] == (AccessQuestion::IsLocal { repo }, facts.is_local)
            &&& facts.is_local ==> talk[1] == (
                AccessQuestion::Resolves { path: trimmed(repo) },
                facts.resolves,
            )
            &&& within ==> talk[2] == (
                AccessQuestion::<Seq<char>>::IsWithinRoots,
                facts.is_within_roots,
            )
        }),
{
}

/// Each refusal has its one reason: a path that does not resolve, whatever the
/// server; else, on a server that faces the network, that nothing is configured,
/// or that the path lies elsewhere. The local user is refused nothing else.
pub proof fn law_access_refusals(policy: ServerPolicy, facts: RepoFacts)
    ensures
        access_verdict(policy, facts) == Err::<RepoSource, _>(AccessRefusal::Unresolved) <==> {
            facts.is_local && !facts.resolves
        },
        access_verdict(policy, facts) == Err::<RepoSource, _>(AccessRefusal::Disabled) <==> {
            facts.is_local && facts.resolves && policy.server_mode && !policy.has_scan_roots
        },
        access_verdict(policy, facts) == Err::<RepoSource, _>(AccessRefusal::Outside) <==> {
            &&& facts.is_local && facts.resolves
            &&& policy.server_mode && policy.has_scan_roots && !facts.is_within_roots
        },
        !policy.server_mode && facts.resolves ==> access_verdict(policy, facts) is Ok,
{
}

/// A decision stands: nothing more is asked, and no answer changes it.
pub proof fn law_decision_stands(
    verdict: Result<RepoSource, AccessRefusal>,
    repo: Seq<char>,
    policy: ServerPolicy,
    yes: bool,
)
    ensures
        access_question(AccessState::Decided(verdict), repo) is None,
        access_next(AccessState::Decided(verdict), policy, yes) == AccessState::Decided(verdict),
{
}

/// In contracts strings are their characters, and nothing else of a question is
/// lost or changed.
pub proof fn law_question_views(a: String)
    ensures
        (AccessQuestion::IsLocal { repo: a })@ == (AccessQuestion::IsLocal { repo: a@ }),
        (AccessQuestion::Resolves { path: a })@ == (AccessQuestion::Resolves { path: a@ }),
        AccessQuestion::<String>::IsWithinRoots@ == AccessQuestion::<Seq<char>>::IsWithinRoots,
{
}

} // verus!
