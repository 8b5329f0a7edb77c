//! What is logged about the submodules of a worktree.

use vstd::prelude::*;
use vstd::string::*;

use crate::errors::{chain_text, prints_as};
use crate::log::{LogLevel, LogLine};
use crate::text::{
    join, joined, law_joined, law_joined_holds_the_parts, law_string_views, string_views,
};

verus! {

/// Is `line` what is logged when fetching the submodules came to `outcome`: the
/// URLs that were skipped, or a failure? Nothing is logged when all went well.
pub open spec fn logged_for(
    outcome: Result<Vec<String>, anyhow::Error>,
    line: Option<LogLine>,
) -> bool {
    match outcome {
        Ok(skipped) => if skipped@.len() == 0 {
            line is None
        } else {
            &&& line is Some
            &&& line->0.level is Warn
            &&& line->0.event@ == "git_submodule_skipped"@
            &&& line->0.message@ == "skipped unsafe submodule URL(s): "@ + joined(
                string_views(skipped@),
                ", "@,
            )
        },
        Err(e) => {
            &&& line is Some
            &&& line->0.level is Warn
            &&& line->0.event@ == "git_submodule_error"@
            &&& exists|text: Seq<char>| #[trigger]
                prints_as(e, text) && line->0.message@ == "submodule population failed: "@ + text
        },
    }
}

/// Best-effort submodule population for a freshly created worktree: given what
/// it came to, what is logged about it. The URLs in `Ok` are those that were
/// rejected.
pub fn populate_worktree_submodules(outcome: &Result<Vec<String>, anyhow::Error>) -> (line: Option<
    LogLine,
>)
    ensures
        logged_for(*outcome, line),
{
    match outcome {
        Ok(skipped) => {
            if skipped.len() == 0 {
                None
            } else {
                let mut message = String::new();
                message.append("skipped unsafe submodule URL(s): ");
                message.append(&join(skipped, ", "));
                assert(message@ =~= "skipped unsafe submodule URL(s): "@ + joined(
                    string_views(skipped@),
                    ", "@,
                ));
                Some(LogLine { level: LogLevel::Warn, event: "git_submodule_skipped", message })
            }
        },
        Err(e) => {
            let text = chain_text(e);
            let mut message = String::new();
            message.append("submodule population failed: ");
            message.append(&text);
            assert(message@ =~= "submodule population failed: "@ + text@);
            Some(LogLine { level: LogLevel::Warn, event: "git_submodule_error", message })
        },
    }
}

/// A line is logged exactly where something went wrong, always as a warning. It
/// names every URL that was skipped, in full, or has the whole text of the
/// failure.
pub proof fn law_submodule_trouble_is_logged(
    outcome: Result<Vec<String>, anyhow::Error>,
    line: Option<LogLine>,
)
    requires
        logged_for(outcome, line),
    ensures
        line is None <==> outcome is Ok && outcome->Ok_0@.len() == 0,
        line is Some ==> line->0.level is Warn,
        outcome is Ok && line is Some ==> {
            &&& line->0.event@ == "git_submodule_skipped"@
            &&& "skipped unsafe submodule URL(s): "@.is_prefix_of(line->0.message@)
            &&& forall|k: int|
                0 <= k < outcome->Ok_0@.len() ==> occurs(
                    (#[trigger] outcome->Ok_0@[k])@,
                    line->0.message@,
                )
        },
        outcome is Err ==> {
            &&& line->0.event@ == "git_submodule_error"@
            &&& exists|text: Seq<char>| #[trigger]
                prints_as(outcome->Err_0, text) && line->0.message@
                    == "submodule population failed: "@ + text
        },
{
    if let Ok(skipped) = outcome {
        if line is Some {
            let intro = "skipped unsafe submodule URL(s): "@;
            let message = line->0.message@;
            let views = string_views(skipped@);
            let list = joined(views, ", "@);
            assert(intro =~= message.subrange(0, intro.len() as int));
            assert forall|k: int| 0 <= k < skipped@.len() implies occurs(
                (#[trigger] skipped@[k])@,
                message,
            ) by {
                let part = skipped@[k]@;
                law_string_views(skipped@);
                assert(views[k] == part);
                let at = law_joined_holds_the_parts(views, ", "@, k);
                let from = intro.len() + at;
                assert(message.subrange(from, from + part.len()) =~= list.subrange(
                    at,
                    at + part.len(),
                ));
            }
        }
    }
}

/// `part` stands somewhere in `text`.
pub open spec fn occurs(part: Seq<char>, text: Seq<char>) -> bool {
    exists|at: int|
        0 <= at <= at + part.len() <= text.len() && #[trigger] text.subrange(at, at + part.len())
            == part
}

/// What is logged about skipped URLs is settled by them: of one URL it is that
/// URL behind the introduction, and each further one follows behind a comma and
/// a blank.
pub proof fn law_skipped_urls_are_listed(
    skipped: Vec<String>,
    more: Vec<String>,
    line: Option<LogLine>,
    longer: Option<LogLine>,
)
    requires
        skipped@.len() > 0,
        more@.len() == skipped@.len() + 1,
        more@.drop_last() == skipped@,
        logged_for(Ok(skipped), line),
        logged_for(Ok(more), longer),
    ensures
        skipped@.len() == 1 ==> line->0.message@ == "skipped unsafe submodule URL(s): "@
            + skipped@[0]@,
        longer->0.message@ == line->0.message@ + seq![',', ' '] + more@.last()@,
{
    reveal_strlit(", ");
    let a = string_views(skipped@);
    let b = seq![more@.last()@];
    assert(", "@ =~= seq![',', ' ']);
    assert(string_views(more@) =~= a + b);
    law_joined(a, b, more@.last()@, ", "@);
    if skipped@.len() == 1 {
        assert(a =~= seq![skipped@[0]@]);
        law_joined(a, b, skipped@[0]@, ", "@);
    }
    assert(longer->0.message@ =~= line->0.message@ + seq![',', ' '] + more@.last()@);
}

} // verus!
