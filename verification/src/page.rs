//! The browser page.

use vstd::prelude::*;
use vstd::string::*;

use crate::json::{json_string, string_to_json};

verus! {

/// The query of the browser page and of the list of refs.
#[derive(Debug)]
pub struct GitBrowserQuery {
    pub repo: Option<String>,
}

/// What the page's template is filled with.
pub struct GitBrowserTemplate {
    pub csp_nonce: String,
    pub repo_url: String,
    /// `repo_url` as a JavaScript string literal.
    pub repo_url_json: String,
    pub version: &'static str,
}

/// The repository that a query names; the empty string where it names none.
pub open spec fn queried_repo(q: GitBrowserQuery) -> Seq<char> {
    match q.repo {
        Some(repo) => repo@,
        None => Seq::empty(),
    }
}

/// What the page shows for a query: the repository's URL, once as text and once
/// as a string literal for the script.
pub fn git_browser_handler(csp_nonce: String, q: GitBrowserQuery, version: &'static str) -> (page:
    GitBrowserTemplate)
    ensures
        page.csp_nonce@ == csp_nonce@,
        page.repo_url@ == queried_repo(q),
        page.repo_url_json@ == json_string(queried_repo(q)),
        page.version@ == version@,
{
    let repo_url = match q.repo {
        Some(repo) => repo,
        None => String::new(),
    };
    let repo_url_json = match string_to_json(&repo_url) {
        Ok(text) => text,
        Err(_) => "\"\"".to_owned(),
    };
    GitBrowserTemplate { csp_nonce, repo_url, repo_url_json, version }
}

/// What is sent to the browser: the rendered page, or the renderer's error.
pub open spec fn page_text(rendered: Result<Seq<char>, Seq<char>>) -> Seq<char> {
    match rendered {
        Ok(html) => html,
        Err(e) => "<pre>"@ + e + "</pre>"@,
    }
}

/// What is sent to the browser, given what rendering the template came to.
pub fn page_html(rendered: Result<String, String>) -> (html: String)
    ensures
        html@ == page_text(
            match rendered {
                Ok(html) => Ok(html@),
                Err(e) => Err(e@),
            },
        ),
{
    match rendered {
        Ok(html) => html,
        Err(e) => {
            let mut html = String::new();
            html.append("<pre>");
            html.append(&e);
            html.append("</pre>");
            assert(html@ =~= "<pre>"@ + e@ + "</pre>"@);
            html
        },
    }
}

/// The page shows the very repository that the query names, whatever it is, and
/// nothing where it names none. A page that was rendered is sent as it is; of a
/// failure the whole message is, between `<pre>` and `</pre>`.
pub proof fn law_page_shows_what_is_asked_for(q: GitBrowserQuery, text: Seq<char>)
    ensures
        q.repo is Some ==> queried_repo(q) == q.repo->0@,
        q.repo is None ==> queried_repo(q).len() == 0,
        page_text(Ok(text)) == text,
        page_text(Err(text)).len() == text.len() + 11,
        page_text(Err(text)).take(5) == seq!['<', 'p', 'r', 'e', '>'],
        page_text(Err(text)).subrange(5, 5 + text.len() as int) == text,
        page_text(Err(text)).skip(5 + text.len() as int) == seq!['<', '/', 'p', 'r', 'e', '>'],
{
    reveal_strlit("<pre>");
    reveal_strlit("</pre>");
    let page = page_text(Err(text));
    assert(page.take(5) =~= seq!['<', 'p', 'r', 'e', '>']);
    assert(page.subrange(5, 5 + text.len() as int) =~= text);
    assert(page.skip(5 + text.len() as int) =~= seq!['<', '/', 'p', 'r', 'e', '>']);
}

} // verus!
