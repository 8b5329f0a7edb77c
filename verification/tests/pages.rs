use git_browser::page::{git_browser_handler, page_html, GitBrowserQuery};

#[test]
fn page_without_a_repository() {
    let page = git_browser_handler("n0".to_owned(), GitBrowserQuery { repo: None }, "1.2.3");
    assert_eq!(page.csp_nonce, "n0");
    assert_eq!(page.repo_url, "");
    assert_eq!(page.repo_url_json, "\"\"");
    assert_eq!(page.version, "1.2.3");
}

#[test]
fn page_with_a_repository() {
    let repo = "https://host/a\"b\\c".to_owned();
    let page = git_browser_handler(String::new(), GitBrowserQuery { repo: Some(repo) }, "v");
    assert_eq!(page.repo_url, "https://host/a\"b\\c");
    assert_eq!(page.repo_url_json, "\"https://host/a\\\"b\\\\c\"");
}

#[test]
fn page_literal_is_one_line() {
    let repo = "a\nb\u{1}".to_owned();
    let page = git_browser_handler(String::new(), GitBrowserQuery { repo: Some(repo) }, "v");
    assert_eq!(page.repo_url_json, "\"a\\nb\\u0001\"");
}

#[test]
fn page_that_does_not_render_shows_the_error() {
    assert_eq!(page_html(Ok("<html>".to_owned())), "<html>");
    assert_eq!(page_html(Err("no".to_owned())), "<pre>no</pre>");
}
