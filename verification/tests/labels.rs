use git_browser::label::{make_label, make_side_label};

#[test]
fn make_label_simple_repo_url() {
    assert_eq!(
        make_label("https://github.com/owner/myrepo", "main"),
        "myrepo_at_main_sloc"
    );
}

#[test]
fn make_label_repo_url_with_git_extension() {
    assert_eq!(
        make_label("https://github.com/owner/myrepo.git", "v1.0"),
        "myrepo_at_v1.0_sloc"
    );
}

#[test]
fn make_label_trailing_slash_stripped() {
    assert_eq!(
        make_label("https://github.com/owner/myrepo/", "main"),
        "myrepo_at_main_sloc"
    );
}

#[test]
fn make_label_ref_slash_becomes_underscore() {
    let label = make_label("https://github.com/owner/repo", "feature/my-branch");
    assert_eq!(label, "repo_at_feature_my-branch_sloc");
}

#[test]
fn make_label_at_sign_in_ref_becomes_underscore() {
    let label = make_label("https://github.com/owner/repo", "v1@tag");
    assert_eq!(label, "repo_at_v1_tag_sloc");
}

#[test]
fn make_label_plus_in_ref_becomes_underscore() {
    let label = make_label("https://github.com/owner/repo", "v1.0+patch");
    assert_eq!(label, "repo_at_v1.0_patch_sloc");
}

#[test]
fn make_label_compare_ref_name() {
    assert_eq!(
        make_label("https://github.com/owner/repo.git", "compare"),
        "repo_at_compare_sloc"
    );
}

#[test]
fn make_label_short_sha() {
    let label = make_label("https://github.com/owner/repo", "a1b2c3d4");
    assert_eq!(label, "repo_at_a1b2c3d4_sloc");
}

#[test]
fn make_label_gitlub_style_path() {
    assert_eq!(
        make_label("https://gitlab.com/group/subgroup/myproject.git", "main"),
        "myproject_at_main_sloc"
    );
}

#[test]
fn make_label_empty_repo_uses_rsplit_fallback() {
    let label = make_label("", "main");
    assert_eq!(label, "_at_main_sloc");
}

#[test]
fn make_label_only_git_extension() {
    // repo URL that is just ".git" after stripping
    let label = make_label("ssh://git@host/.git", "main");
    assert!(!label.is_empty());
    assert!(label.ends_with("_sloc"));
}

#[test]
fn make_label_numeric_in_ref() {
    let label = make_label("https://github.com/org/repo", "release-2024-12-31");
    assert_eq!(label, "repo_at_release-2024-12-31_sloc");
}

#[test]
fn make_label_special_chars_in_ref_become_underscore() {
    // Braces are not in the alphanumeric / - . set, so they become _
    let label = make_label("https://github.com/org/repo", "branch{name}");
    assert!(label.contains("branch"), "must contain 'branch'");
    assert!(!label.contains('{'), "curly braces must be replaced");
    assert!(!label.contains('}'), "curly braces must be replaced");
}

#[test]
fn make_label_dot_in_ref_preserved() {
    let label = make_label("https://github.com/org/repo.git", "v1.2.3");
    assert_eq!(label, "repo_at_v1.2.3_sloc");
}

#[test]
fn make_label_hyphen_in_ref_preserved() {
    let label = make_label("https://github.com/org/repo", "hot-fix-123");
    assert_eq!(label, "repo_at_hot-fix-123_sloc");
}

#[test]
fn make_label_strips_every_slash_and_extension() {
    assert_eq!(make_label("https://host/owner/repo.git.git///", "main"), "repo_at_main_sloc");
    assert_eq!(make_label("repo", "main"), "repo_at_main_sloc");
    assert_eq!(make_label(".git", "main"), "_at_main_sloc");
    assert_eq!(make_label("///", "main"), "_at_main_sloc");
}

#[test]
fn make_label_extension_behind_a_slash_is_a_segment() {
    assert_eq!(make_label("ssh://git@host/.git", "main"), "_at_main_sloc");
    assert_eq!(make_label("ssh://git@host/", "main"), "git@host_at_main_sloc");
}

#[test]
fn make_label_keeps_letters_and_digits_of_any_script() {
    assert_eq!(make_label("r", "\u{e4}\u{4eac}\u{663}"), "r_at_\u{e4}\u{4eac}\u{663}_sloc");
    assert_eq!(make_label("r", "\u{2192}\u{1f980} x"), "r_at____x_sloc");
}

#[test]
fn make_label_trailing_slash_and_extension_do_not_matter() {
    for repo in ["", "a", "a/b", "https://host/owner/repo"] {
        let plain = make_label(repo, "v1");
        assert_eq!(make_label(&format!("{repo}/"), "v1"), plain);
        assert_eq!(make_label(&format!("{repo}.git"), "v1"), plain);
    }
}

#[test]
fn side_label_names_the_ref() {
    assert_eq!(make_side_label("repo_at_compare_sloc", "v1.0"), "repo_at_compare_sloc (v1.0)");
    assert_ne!(make_side_label("l", "a"), make_side_label("l", "b"));
}
