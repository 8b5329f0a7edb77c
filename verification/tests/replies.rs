use git_browser::errors::{cap_message, git_error_message};
use git_browser::log::{LogLevel, LogLine};
use git_browser::reply::{failure_line, git_task_error_response, json_error, TaskFailure};

#[test]
fn json_error_not_found_status() {
    let reply = json_error(404, "resource missing");
    assert_eq!(reply.status, 404);
    assert!(reply.body.contains("resource missing"));
    assert!(reply.body.contains("error"));
}

#[test]
fn json_error_bad_request_status() {
    let reply = json_error(400, "invalid ref");
    assert_eq!(reply.status, 400);
    assert!(reply.body.contains("invalid ref"));
}

#[test]
fn json_error_bad_gateway_status() {
    let reply = json_error(502, "repo unreachable");
    assert_eq!(reply.status, 502);
    assert!(reply.body.contains("repo unreachable"));
}

#[test]
fn json_error_internal_server_error_status() {
    let reply = json_error(500, "Internal server error");
    assert_eq!(reply.status, 500);
    assert!(reply.body.contains("Internal server error"));
}

#[test]
fn json_error_exact_body() {
    assert_eq!(json_error(400, "invalid ref").body, r#"{"error":"invalid ref"}"#);
    assert_eq!(json_error(400, "").body, r#"{"error":""}"#);
}

#[test]
fn json_error_escapes_the_message() {
    let reply = json_error(502, "a\"b\\c\n\t\r\u{8}\u{c}\u{0}\u{1f}\u{7f}/\u{e9}\u{1f980}");
    assert_eq!(
        reply.body,
        "{\"error\":\"a\\\"b\\\\c\\n\\t\\r\\b\\f\\u0000\\u001f\u{7f}/\u{e9}\u{1f980}\"}"
    );
    assert!(reply.body.chars().all(|c| c >= ' '));
}

#[test]
fn json_error_tells_the_message() {
    let messages = ["", "\"", "\\", "\\\"", "\n", "\\n", "a", "a\"}"];
    for (i, a) in messages.iter().enumerate() {
        for (j, b) in messages.iter().enumerate() {
            assert_eq!(json_error(502, a).body == json_error(502, b).body, i == j);
        }
        let value: serde_json::Value = serde_json::from_str(&json_error(502, a).body).unwrap();
        assert_eq!(value["error"], **a);
    }
}

#[test]
fn error_message_prints_the_whole_chain() {
    let e = anyhow::Error::msg("connection refused").context("fetch failed").context("load_refs");
    assert_eq!(git_error_message(&e), "load_refs: fetch failed: connection refused");
}

#[test]
fn error_message_is_passed_on_whole_up_to_the_cap() {
    let text = "x".repeat(600);
    assert_eq!(git_error_message(&anyhow::Error::msg(text.clone())), text);
}

#[test]
fn error_message_beyond_the_cap_is_cut() {
    let text = "\u{e9}".repeat(601);
    let msg = git_error_message(&anyhow::Error::msg(text));
    assert_eq!(msg.chars().count(), 601);
    assert!(msg.starts_with(&"\u{e9}".repeat(600)));
    assert!(msg.ends_with('\u{2026}'));
}

#[test]
fn capping_twice_is_capping_once() {
    let once = cap_message("y".repeat(5000));
    assert_eq!(once, format!("{}\u{2026}", "y".repeat(600)));
    assert_eq!(cap_message(once.clone()), once);
}

#[test]
fn task_failure_git_error_is_a_bad_gateway() {
    let failure = TaskFailure::Git(anyhow::Error::msg("timed out").context("git fetch"));
    let (reply, line) = git_task_error_response(&failure, "load_refs");
    assert_eq!(reply.status, 502);
    assert_eq!(reply.body, r#"{"error":"git fetch: timed out"}"#);
    assert_eq!(
        line,
        LogLine {
            level: LogLevel::Warn,
            event: "git_api_error",
            message: "load_refs failed: git fetch: timed out".to_owned(),
        }
    );
}

#[test]
fn task_failure_panic_is_not_described() {
    let failure = TaskFailure::Panicked("task 7 panicked".to_owned());
    let (reply, line) = git_task_error_response(&failure, "ref scan");
    assert_eq!(reply.status, 500);
    assert_eq!(reply.body, r#"{"error":"Internal server error"}"#);
    assert_eq!(
        line,
        LogLine {
            level: LogLevel::Error,
            event: "git_task_panic",
            message: "ref scan task panicked: task 7 panicked".to_owned(),
        }
    );
}

#[test]
fn logged_failure_is_not_cut() {
    let text = "\u{e9}".repeat(601);
    let failure = TaskFailure::Git(anyhow::Error::msg(text.clone()).context("git fetch"));
    let line = failure_line("ref compare", &failure);
    assert_eq!(line.message, format!("ref compare failed: git fetch: {text}"));
    let (reply, line) = git_task_error_response(&failure, "ref compare");
    assert!(reply.body.contains('\u{2026}'));
    assert!(line.message.ends_with(&text));
    let line = failure_line("", &TaskFailure::Panicked(text.clone()));
    assert_eq!(line.message, format!(" task panicked: {text}"));
}
