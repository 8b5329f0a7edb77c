//! What a failed git operation tells the client.

use std::fmt::Write;

use vstd::prelude::*;
use vstd::string::*;

verus! {

/// `anyhow::Error`, the error of every git operation. Nothing is known of what
/// is inside.
#[verifier::external_type_specification]
#[verifier::external_body]
pub struct ExError(anyhow::Error);

/// `text` is what `{:#}` may print for `e`: its message and those of its
/// causes. The messages come from the `Display` of whatever errors are in the
/// chain, so that one error may be printed in more than one way.
pub uninterp spec fn prints_as(e: anyhow::Error, text: Seq<char>) -> bool;

/// The `Display` of `anyhow::Error` with the alternate flag, which prints the
/// error and then its causes. The result is claimed to be such a printout of
/// this very error, and nothing more. Where the `Display` of an error in the
/// chain fails, the printout is what was printed until then.
#[verifier::external_body]
pub(crate) fn chain_text(e: &anyhow::Error) -> (text: String)
    ensures
        prints_as(*e, text@),
{
    let mut text = String::new();
    let _ = write!(text, "{:#}", e);
    text
}

/// How many characters of an error message are passed on.
pub const MAX_CHARS: usize = 600;

/// `text`, or its first 600 characters and an ellipsis where it is longer.
pub open spec fn capped(text: Seq<char>) -> Seq<char> {
    if text.len() > MAX_CHARS {
        text.take(MAX_CHARS as int).push('\u{2026}')
    } else {
        text
    }
}

/// Caps the length of a message, to keep the payload bounded.
pub fn cap_message(msg: String) -> (res: String)
    ensures
        res@ == capped(msg@),
{
    if msg.as_str().unicode_len() > MAX_CHARS {
        let mut truncated = String::new();
        truncated.append(msg.as_str().substring_char(0, MAX_CHARS));
        truncated.push('\u{2026}');
        assert(truncated@ =~= capped(msg@));
        truncated
    } else {
        msg
    }
}

/// Render a git-operation error for the API response body. The client
/// classifies this text to show targeted hints, so the real message reaches it;
/// its length is capped.
pub fn git_error_message(e: &anyhow::Error) -> (msg: String)
    ensures
        exists|text: Seq<char>| #[trigger] prints_as(*e, text) && msg@ == capped(text),
{
    let text = chain_text(e);
    cap_message(text)
}

/// A message is passed on whole up to 600 characters, and its beginning is
/// passed on in any case; what is passed on never has more than 601 characters,
/// and capping it again changes nothing.
pub proof fn law_capped(text: Seq<char>)
    ensures
        capped(text).len() <= 601,
        text.len() <= 600 ==> capped(text) == text,
        text.len() > 600 ==> capped(text).last() == '\u{2026}' && capped(text).drop_last()
            == text.take(600),
        capped(capped(text)) == capped(text),
{
    if text.len() > MAX_CHARS {
        assert(capped(text).drop_last() =~= text.take(MAX_CHARS as int));
        assert(capped(text).take(MAX_CHARS as int) =~= text.take(MAX_CHARS as int));
    }
}

} // verus!
