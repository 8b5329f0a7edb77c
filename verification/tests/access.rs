use git_browser::access::{resolve_local_repo, AccessQuestion, AccessRefusal, AccessState, RepoSource};
use git_browser::policy::{should_populate_submodules, ServerPolicy};
use git_browser::text::trim;

fn policy(server_mode: bool, has_scan_roots: bool) -> ServerPolicy {
    ServerPolicy { server_mode, has_scan_roots, submodule_breakdown: false, host_allowlist: false }
}

/// The questions asked and the decision, given the answers to all three.
fn decide(
    policy: &ServerPolicy,
    repo: &str,
    facts: (bool, bool, bool),
) -> (Vec<AccessQuestion<String>>, Result<RepoSource, AccessRefusal>) {
    let mut state = resolve_local_repo();
    let mut asked = Vec::new();
    loop {
        match state.question(repo) {
            Some(question) => {
                let yes = match &question {
                    AccessQuestion::IsLocal { .. } => facts.0,
                    AccessQuestion::Resolves { .. } => facts.1,
                    AccessQuestion::IsWithinRoots => facts.2,
                };
                asked.push(question);
                state = state.answered(policy, yes);
            }
            None => match state {
                AccessState::Decided(verdict) => return (asked, verdict),
                _ => panic!("no question and no decision"),
            },
        }
    }
}

fn is_local(repo: &str) -> AccessQuestion<String> {
    AccessQuestion::IsLocal { repo: repo.to_owned() }
}

fn resolves(path: &str) -> AccessQuestion<String> {
    AccessQuestion::Resolves { path: path.to_owned() }
}

#[test]
fn url_is_remote_and_not_looked_up_on_disk() {
    for server in [false, true] {
        let (asked, verdict) =
            decide(&policy(server, true), "https://host/r", (false, true, true));
        assert_eq!(asked, vec![is_local("https://host/r")]);
        assert_eq!(verdict, Ok(RepoSource::Remote));
    }
}

#[test]
fn local_mode_allows_any_repository_that_resolves() {
    let (asked, verdict) = decide(&policy(false, false), " /srv/r\n", (true, true, false));
    assert_eq!(asked, vec![is_local(" /srv/r\n"), resolves("/srv/r")]);
    assert_eq!(verdict, Ok(RepoSource::Local));
}

#[test]
fn local_path_that_does_not_resolve_is_refused() {
    for server in [false, true] {
        let (asked, verdict) = decide(&policy(server, true), "/none", (true, false, true));
        assert_eq!(asked, vec![is_local("/none"), resolves("/none")]);
        assert_eq!(verdict, Err(AccessRefusal::Unresolved));
    }
}

#[test]
fn server_without_scan_roots_refuses_local_paths() {
    let (asked, verdict) = decide(&policy(true, false), "/srv/r", (true, true, true));
    assert_eq!(asked.len(), 2);
    assert_eq!(verdict, Err(AccessRefusal::Disabled));
}

#[test]
fn server_allows_local_paths_within_its_roots_only() {
    let (asked, verdict) = decide(&policy(true, true), "/srv/r", (true, true, true));
    assert_eq!(asked, vec![is_local("/srv/r"), resolves("/srv/r"), AccessQuestion::IsWithinRoots]);
    assert_eq!(verdict, Ok(RepoSource::Local));
    let (_, verdict) = decide(&policy(true, true), "/etc", (true, true, false));
    assert_eq!(verdict, Err(AccessRefusal::Outside));
}

#[test]
fn refusals_have_their_messages() {
    assert_eq!(
        AccessRefusal::Unresolved.message(),
        "local repository path could not be resolved"
    );
    assert_eq!(
        AccessRefusal::Disabled.message(),
        "local-path browsing is disabled on this server (no allowed_scan_roots configured)"
    );
    assert_eq!(
        AccessRefusal::Outside.message(),
        "local repository path is not within an allowed scan directory"
    );
}

#[test]
fn submodules_are_populated_only_where_it_is_safe() {
    for breakdown in [false, true] {
        for server in [false, true] {
            for allowlist in [false, true] {
                let policy = ServerPolicy {
                    server_mode: server,
                    has_scan_roots: false,
                    submodule_breakdown: breakdown,
                    host_allowlist: allowlist,
                };
                let expected = breakdown && (!server || allowlist);
                assert_eq!(should_populate_submodules(&policy), expected);
            }
        }
    }
}

#[test]
fn trim_removes_white_space_of_any_script() {
    assert_eq!(trim(" \t\u{b}\u{c}\r\n a b \u{3000}\u{a0}"), "a b");
    assert_eq!(trim(""), "");
    assert_eq!(trim(" \n "), "");
    for s in ["x", " x", "\u{85}x\u{2028}", "\u{200b}x", "\u{1c}x"] {
        assert_eq!(trim(s), s.trim());
    }
}
