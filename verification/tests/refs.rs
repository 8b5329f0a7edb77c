use git_browser::refname::is_valid_git_ref;

#[test]
fn valid_ref_simple_branch_name() {
    assert!(is_valid_git_ref("main"));
}

#[test]
fn valid_ref_develop_branch() {
    assert!(is_valid_git_ref("develop"));
}

#[test]
fn valid_ref_with_slash() {
    assert!(is_valid_git_ref("feature/my-branch"));
}

#[test]
fn valid_ref_tag_with_dots() {
    assert!(is_valid_git_ref("v1.0.0"));
}

#[test]
fn valid_ref_sha_hex_string() {
    assert!(is_valid_git_ref("a1b2c3d4e5f678901234567890abcdef01234567"));
}

#[test]
fn valid_ref_with_at_sign() {
    assert!(is_valid_git_ref("refs@HEAD"));
}

#[test]
fn valid_ref_with_plus() {
    assert!(is_valid_git_ref("refs/tags/v1.0+patch"));
}

#[test]
fn valid_ref_exactly_256_chars() {
    let r = "a".repeat(256);
    assert!(is_valid_git_ref(&r), "256-char ref must be valid");
}

#[test]
fn valid_ref_with_underscore() {
    assert!(is_valid_git_ref("release_candidate_1"));
}

#[test]
fn valid_ref_with_hyphen() {
    assert!(is_valid_git_ref("my-feature-branch"));
}

#[test]
fn valid_ref_nested_path() {
    assert!(is_valid_git_ref("refs/heads/main"));
}

#[test]
fn invalid_ref_empty_string() {
    assert!(!is_valid_git_ref(""));
}

#[test]
fn invalid_ref_257_chars_too_long() {
    let r = "a".repeat(257);
    assert!(!is_valid_git_ref(&r), "257-char ref must be invalid");
}

#[test]
fn invalid_ref_starts_with_slash() {
    assert!(!is_valid_git_ref("/etc/passwd"));
}

#[test]
fn invalid_ref_contains_double_dot() {
    assert!(!is_valid_git_ref("branch..other"));
}

#[test]
fn invalid_ref_path_traversal_attempt() {
    assert!(!is_valid_git_ref("../../etc/passwd"));
}

#[test]
fn invalid_ref_contains_space() {
    assert!(!is_valid_git_ref("branch name"));
}

#[test]
fn invalid_ref_semicolon_injection() {
    assert!(!is_valid_git_ref("branch;rm -rf /"));
}

#[test]
fn invalid_ref_backtick_injection() {
    assert!(!is_valid_git_ref("branch`cmd`"));
}

#[test]
fn invalid_ref_dollar_sign() {
    assert!(!is_valid_git_ref("$PATH"));
}

#[test]
fn invalid_ref_angle_bracket() {
    assert!(!is_valid_git_ref("<script>alert(1)</script>"));
}

#[test]
fn invalid_ref_newline() {
    assert!(!is_valid_git_ref("branch\ninjected"));
}

#[test]
fn invalid_ref_null_byte() {
    assert!(!is_valid_git_ref("branch\0name"));
}

#[test]
fn invalid_ref_pipe_char() {
    assert!(!is_valid_git_ref("branch|cmd"));
}

#[test]
fn invalid_ref_exclamation_mark() {
    assert!(!is_valid_git_ref("branch!"));
}

#[test]
fn invalid_ref_leading_dash_option_injection() {
    // An option-like leading dash must be rejected so a ref can never be parsed as a
    // git flag (argument injection) when it reaches `git rev-parse`/`git log`.
    assert!(!is_valid_git_ref("--upload-pack=touch /tmp/pwned"));
    assert!(!is_valid_git_ref("-oProxyCommand=evil"));
    assert!(!is_valid_git_ref("--output=/etc/passwd"));
}

#[test]
fn valid_ref_refs_tags_path() {
    assert!(is_valid_git_ref("refs/tags/v2.0.0"));
}

#[test]
fn valid_ref_commit_sha_40_chars() {
    let sha = "abcdef0123456789abcdef0123456789abcdef01";
    assert_eq!(sha.len(), 40);
    assert!(is_valid_git_ref(sha));
}

#[test]
fn valid_ref_single_char() {
    assert!(is_valid_git_ref("a"));
}

#[test]
fn valid_ref_feature_with_ticket_number() {
    assert!(is_valid_git_ref("feature/JIRA-1234"));
}

#[test]
fn invalid_ref_double_dot_at_start() {
    assert!(!is_valid_git_ref("..main"));
}

#[test]
fn invalid_ref_double_dot_at_end() {
    assert!(!is_valid_git_ref("main.."));
}

#[test]
fn invalid_ref_backslash() {
    assert!(!is_valid_git_ref("branch\\name"));
}

#[test]
fn invalid_ref_asterisk() {
    assert!(!is_valid_git_ref("branch*glob"));
}

#[test]
fn invalid_ref_question_mark() {
    assert!(!is_valid_git_ref("branch?name"));
}

#[test]
fn invalid_ref_colon() {
    assert!(!is_valid_git_ref("branch:ref"));
}

#[test]
fn invalid_ref_caret() {
    assert!(!is_valid_git_ref("HEAD^1"));
}

#[test]
fn invalid_ref_tilde() {
    assert!(!is_valid_git_ref("HEAD~2"));
}

#[test]
fn invalid_ref_left_bracket() {
    assert!(!is_valid_git_ref("branch[0]"));
}

#[test]
fn valid_ref_beyond_ascii() {
    assert!(is_valid_git_ref("caf\u{e9}"));
    assert!(is_valid_git_ref("feature/br\u{e4}nch"));
    assert!(is_valid_git_ref("\u{1f980}"));
    assert!(is_valid_git_ref("\u{10ffff}"));
}

#[test]
fn invalid_ref_beyond_ascii() {
    // The other rules hold there too.
    assert!(!is_valid_git_ref("caf\u{e9}..main"));
    assert!(!is_valid_git_ref("/caf\u{e9}"));
    assert!(!is_valid_git_ref("-caf\u{e9}"));
    assert!(!is_valid_git_ref("caf\u{e9} au lait"));
    assert!(!is_valid_git_ref("caf\u{e9}\u{85}"));
}

#[test]
fn ref_length_is_counted_in_bytes() {
    // Two bytes each.
    assert!(is_valid_git_ref(&"\u{e9}".repeat(128)));
    assert!(!is_valid_git_ref(&"\u{e9}".repeat(129)));
    assert!(!is_valid_git_ref(&format!("a{}", "\u{e9}".repeat(128))));
    // Four bytes each.
    assert!(is_valid_git_ref(&"\u{1f980}".repeat(64)));
    assert!(!is_valid_git_ref(&"\u{1f980}".repeat(65)));
}

#[test]
fn valid_ref_single_dots_are_fine() {
    assert!(is_valid_git_ref("."));
    assert!(is_valid_git_ref(".a.b.c."));
    assert!(is_valid_git_ref("a./.b"));
}

#[test]
fn invalid_ref_lone_slash_or_dash() {
    assert!(!is_valid_git_ref("/"));
    assert!(!is_valid_git_ref("-"));
    assert!(is_valid_git_ref("a-"));
    assert!(is_valid_git_ref("a/"));
}

#[test]
fn valid_ref_characters_one_by_one() {
    for code in 0..=255u32 {
        let c = char::from_u32(code).unwrap();
        let allowed = c.is_ascii_alphanumeric() || "-_./@+".contains(c) || code > 0x9f;
        assert_eq!(is_valid_git_ref(&format!("a{c}b")), allowed);
    }
}
