# git_browser

The decisions behind a git browser, verified with Verus: which refs may be
scanned, which local repositories may be opened, what a scan is called, in which
order git is driven, and what the HTTP API answers.

The library does no I/O. A request is an `api::ApiSession`, and the work on a
repository is a `job::GitJob`. Each says what is to be done next and is told what
came of it, until it is finished. The laws in `api_laws` and `job_laws` hold
whatever the outside world does in between: worktrees are removed again, git sees
accepted ref names only, and a server that faces the network reaches no local
repository outside the directories configured for it.

| module       | what it decides                                            |
|--------------|------------------------------------------------------------|
| `refname`    | which ref names are accepted                               |
| `access`     | whether a local repository may be reached                  |
| `policy`     | whether submodules are fetched                             |
| `label`      | the names of scans                                         |
| `worktree`   | the names of worktrees                                     |
| `job`        | the git operations of a job; its laws are in `job_laws`    |
| `submodules` | what is logged about submodules                            |
| `api`        | the course of a request; its laws are in `api_laws`        |
| `reply`      | the answers, with their bodies in JSON (`json`), and what  |
|              | is logged about failures                                   |
| `log`        | the lines for the log                                      |
| `errors`     | what a failure tells the client                            |
| `page`       | what the browser page is filled with                       |
| `text`       | strings as sequences of characters                         |

`app/` is the HTTP face: the handlers, the page's template, and the loops that
carry out what sessions and jobs ask for, on a server that implements
`host::Host`.
