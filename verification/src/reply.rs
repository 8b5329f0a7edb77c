//! What the HTTP API answers, and what is logged about its failures.

use vstd::prelude::*;
use vstd::string::*;

use crate::errors::{capped, chain_text, git_error_message, law_capped, prints_as};
use crate::json::{
    field_views, fields_to_json, json_object, json_string, law_json_members,
    law_json_string_is_unambiguous, law_json_string_of_plain_text,
};
use crate::log::{LogLevel, LogLine};

verus! {

pub const STATUS_OK: u16 = 200;

pub const STATUS_BAD_REQUEST: u16 = 400;

pub const STATUS_FORBIDDEN: u16 = 403;

pub const STATUS_INTERNAL_SERVER_ERROR: u16 = 500;

pub const STATUS_BAD_GATEWAY: u16 = 502;

/// An answer: its HTTP status and its body, a JSON text. `S` is `String`; in
/// contracts it is the sequence of the body's characters.
#[derive(Debug, PartialEq, Eq)]
pub struct Reply<S> {
    pub status: u16,
    pub body: S,
}

impl View for Reply<String> {
    type V = Reply<Seq<char>>;

    open spec fn view(&self) -> Reply<Seq<char>> {
        Reply { status: self.status, body: self.body@ }
    }
}

/// The answer with the given fields for its body.
pub open spec fn fields_reply(status: u16, fields: Seq<(Seq<char>, Seq<char>)>) -> Reply<Seq<char>> {
    Reply { status, body: json_object(fields) }
}

/// The answer that reports an error.
pub open spec fn error_reply(status: u16, msg: Seq<char>) -> Reply<Seq<char>> {
    fields_reply(status, seq![("error"@, msg)])
}

/// The answer with the given fields for its body.
pub(crate) fn json_reply(status: u16, fields: Vec<(String, String)>) -> (reply: Reply<String>)
    ensures
        reply@ == fields_reply(status, field_views(fields@)),
{
    Reply { status, body: fields_to_json(&fields).unwrap() }
}

/// The answer that reports an error: an object whose member `error` is the
/// message.
pub fn json_error(status: u16, msg: &str) -> (reply: Reply<String>)
    ensures
        reply@ == error_reply(status, msg@),
{
    let mut fields: Vec<(String, String)> = Vec::new();
    fields.push(("error".to_owned(), msg.to_owned()));
    assert(field_views(fields@) =~= seq![("error"@, msg@)]);
    json_reply(status, fields)
}

/// Why the work on a repository came to nothing.
pub enum TaskFailure {
    /// A git operation failed.
    Git(anyhow::Error),
    /// The worker panicked; this is what was said of it.
    Panicked(String),
}

/// The answer to a request whose work failed: a git operation's error is passed
/// on, with its message capped; a panic is not described.
pub open spec fn failure_reply(failure: TaskFailure, reply: Reply<Seq<char>>) -> bool {
    match failure {
        TaskFailure::Git(e) => exists|text: Seq<char>| #[trigger]
            prints_as(e, text) && reply == error_reply(STATUS_BAD_GATEWAY, capped(text)),
        TaskFailure::Panicked(_) => reply == error_reply(
            STATUS_INTERNAL_SERVER_ERROR,
            "Internal server error"@,
        ),
    }
}

/// Is `line` what is logged when the work that `op` names failed? Here nothing is
/// cut: the whole chain of a git operation's error is in it, and what was said
/// of a panic.
pub open spec fn failure_logged(op: Seq<char>, failure: TaskFailure, line: LogLine) -> bool {
    match failure {
        TaskFailure::Git(e) => {
            &&& line.level is Warn
            &&& line.event@ == "git_api_error"@
            &&& exists|text: Seq<char>| #[trigger]
                prints_as(e, text) && line.message@ == op + " failed: "@ + text
        },
        TaskFailure::Panicked(said) => {
            &&& line.level is Error
            &&& line.event@ == "git_task_panic"@
            &&& line.message@ == op + " task panicked: "@ + said@
        },
    }
}

/// What is logged when the work that `op` names failed.
pub fn failure_line(op: &str, failure: &TaskFailure) -> (line: LogLine)
    ensures
        failure_logged(op@, *failure, line),
{
    let mut message = String::new();
    message.append(op);
    match failure {
        TaskFailure::Git(e) => {
            let text = chain_text(e);
            message.append(" failed: ");
            message.append(&text);
            assert(message@ =~= op@ + " failed: "@ + text@);
            LogLine { level: LogLevel::Warn, event: "git_api_error", message }
        },
        TaskFailure::Panicked(said) => {
            message.append(" task panicked: ");
            message.append(said);
            assert(message@ =~= op@ + " task panicked: "@ + said@);
            LogLine { level: LogLevel::Error, event: "git_task_panic", message }
        },
    }
}

/// Map the failure of the work on a repository to a JSON error response, and to
/// the line that is logged about it. `op` names the work in the log.
pub fn git_task_error_response(outcome: &TaskFailure, op: &str) -> (answer: (
    Reply<String>,
    LogLine,
))
    ensures
        failure_reply(*outcome, answer.0@),
        failure_logged(op@, *outcome, answer.1),
{
    let reply = match outcome {
        TaskFailure::Git(e) => {
            let msg = git_error_message(e);
            json_error(STATUS_BAD_GATEWAY, &msg)
        },
        TaskFailure::Panicked(_) => json_error(
            STATUS_INTERNAL_SERVER_ERROR,
            "Internal server error",
        ),
    };
    (reply, failure_line(op, outcome))
}

/// An error's body says what the message was: two messages never look alike to
/// the client.
pub proof fn law_error_body_tells_the_message(status: u16, a: Seq<char>, b: Seq<char>)
    ensures
        error_reply(status, a).body == error_reply(status, b).body <==> a == b,
{
    let left = error_reply(status, a).body;
    let right = error_reply(status, b).body;
    if left == right {
        let n = json_string("error"@).len() as int;
        let close = seq!['}'];
        assert(left.skip(n + 2) =~= json_string(a) + close);
        assert(right.skip(n + 2) =~= json_string(b) + close);
        law_json_string_is_unambiguous(a, b, close, close);
    }
}

/// `reply` has the given status and an object for its body whose one member,
/// `error`, is the message.
pub open spec fn tells_error(reply: Reply<Seq<char>>, status: int, msg: Seq<char>) -> bool {
    &&& reply.status == status
    &&& reply.body == "{\"error\":"@ + json_string(msg) + "}"@
}

/// The answer that reports an error has the status and the whole message that it
/// is made of, whatever they are.
pub proof fn law_error_reply(status: u16, msg: Seq<char>)
    ensures
        tells_error(error_reply(status, msg), status as int, msg),
{
    reveal_strlit("error");
    reveal_strlit("{\"error\":");
    reveal_strlit("}");
    law_json_string_of_plain_text("error"@);
    law_json_members(Seq::empty(), Seq::empty(), "error"@, msg);
    let fields = seq![("error"@, msg)];
    assert("{\"error\":"@ =~= seq!['{'] + json_string("error"@) + seq![':']);
    assert(error_reply(status, msg).body =~= "{\"error\":"@ + json_string(msg) + "}"@);
}

/// What the client is told of a failure, and what the log. Of a git operation's
/// error the client gets status 502 and the text, cut behind 600 characters; the
/// log gets a warning with all of the text. Of a panic the client gets status 500
/// and no word about it; the log gets an error with what was said.
pub proof fn law_failure_is_told(
    op: Seq<char>,
    failure: TaskFailure,
    reply: Reply<Seq<char>>,
    line: LogLine,
)
    requires
        failure_reply(failure, reply),
        failure_logged(op, failure, line),
    ensures
        failure matches TaskFailure::Git(e) ==> {
            &&& exists|text: Seq<char>| #[trigger]
                prints_as(e, text) && (text.len() <= 600 ==> tells_error(reply, 502, text)) && (
                text.len() > 600 ==> tells_error(reply, 502, text.take(600) + seq!['\u{2026}']))
            &&& line.level is Warn
            &&& line.event@ == "git_api_error"@
            &&& exists|text: Seq<char>| #[trigger]
                prints_as(e, text) && line.message@ == op + " failed: "@ + text
        },
        failure matches TaskFailure::Panicked(said) ==> {
            &&& tells_error(reply, 500, "Internal server error"@)
            &&& line.level is Error
            &&& line.event@ == "git_task_panic"@
            &&& line.message@ == op + " task panicked: "@ + said@
        },
{
    match failure {
        TaskFailure::Git(e) => {
            let text = choose|text: Seq<char>| #[trigger]
                prints_as(e, text) && reply == error_reply(STATUS_BAD_GATEWAY, capped(text));
            law_capped(text);
            law_error_reply(STATUS_BAD_GATEWAY, capped(text));
            if text.len() > 600 {
                assert(capped(text) =~= text.take(600) + seq!['\u{2026}']);
            }
        },
        TaskFailure::Panicked(_) => {
            law_error_reply(STATUS_INTERNAL_SERVER_ERROR, "Internal server error"@);
        },
    }
}

/// In contracts a body is its characters.
pub proof fn law_reply_view(reply: Reply<String>)
    ensures
        reply@.status == reply.status,
        reply@.body == reply.body@,
{
}

} // verus!
