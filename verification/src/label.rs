//! The names under which scans are registered.

use vstd::prelude::*;
use vstd::string::*;

use crate::refname::{ascii_alnum, is_ascii_alnum};
use crate::text::{chars_of, unicode_alphanumeric};

verus! {

/// `s` without the slashes at its end.
pub open spec fn without_trailing_slashes(s: Seq<char>) -> Seq<char>
    decreases s.len(),
{
    if s.len() > 0 && s.last() == '/' {
        without_trailing_slashes(s.drop_last())
    } else {
        s
    }
}

/// Does `s` end in `.git`?
pub open spec fn ends_in_git(s: Seq<char>) -> bool {
    s.len() >= 4 && s.skip(s.len() - 4) == seq!['.', 'g', 'i', 't']
}

/// `s` without any `.git` at its end, however often it is repeated there.
pub open spec fn without_git_suffix(s: Seq<char>) -> Seq<char>
    decreases s.len(),
{
    if ends_in_git(s) {
        without_git_suffix(s.take(s.len() - 4))
    } else {
        s
    }
}

/// What follows the last slash of `s`; all of `s` where it has none.
pub open spec fn last_segment(s: Seq<char>) -> Seq<char>
    decreases s.len(),
{
    if s.len() == 0 || s.last() == '/' {
        Seq::empty()
    } else {
        last_segment(s.drop_last()).push(s.last())
    }
}

/// The name of a repository, given its URL or path.
pub open spec fn repo_base(repo: Seq<char>) -> Seq<char> {
    last_segment(without_git_suffix(without_trailing_slashes(repo)))
}

/// Does a label keep `c` as it is: a letter or digit (of any script), a hyphen
/// or a dot?
pub open spec fn is_label_char(c: char) -> bool {
    ||| is_ascii_alnum(c)
    ||| c == '-'
    ||| c == '.'
    ||| c > '\u{7f}' && unicode_alphanumeric(c)
}

/// A ref name with an underscore for every character that a label does not keep.
pub open spec fn ref_safe(ref_name: Seq<char>) -> Seq<char> {
    Seq::new(
        ref_name.len(),
        |i: int|
            if is_label_char(ref_name[i]) {
                ref_name[i]
            } else {
                '_'
            },
    )
}

/// The label of a scan of `ref_name` in `repo`.
pub open spec fn scan_label(repo: Seq<char>, ref_name: Seq<char>) -> Seq<char> {
    repo_base(repo) + "_at_"@ + ref_safe(ref_name) + "_sloc"@
}

/// Does a label keep `c` as it is?
fn label_char(c: char) -> (yes: bool)
    ensures
        yes == is_label_char(c),
{
    ascii_alnum(c) || c == '-' || c == '.' || (c > '\u{7f}' && c.is_alphanumeric())
}

/// The name of a repository, given its URL or path.
fn base_of(repo: &str) -> (base: &str)
    ensures
        base@ == repo_base(repo@),
{
    let chars = chars_of(repo);
    let mut end: usize = chars.len();
    assert(repo@.take(end as int) =~= repo@);
    while end > 0 && chars[end - 1] == '/'
        invariant
            chars@ == repo@,
            end <= repo@.len(),
            without_trailing_slashes(repo@) == without_trailing_slashes(repo@.take(end as int)),
        decreases end,
    {
        assert(repo@.take(end as int).drop_last() =~= repo@.take(end - 1));
        end -= 1;
    }
    let ghost bare = repo@.take(end as int);
    assert(without_trailing_slashes(repo@) == bare);
    while end >= 4 && chars[end - 4] == '.' && chars[end - 3] == 'g' && chars[end - 2] == 'i'
        && chars[end - 1] == 't'
        invariant
            chars@ == repo@,
            end <= repo@.len(),
            without_git_suffix(bare) == without_git_suffix(repo@.take(end as int)),
        decreases end,
    {
        assert(repo@.take(end as int).skip(end - 4) =~= seq!['.', 'g', 'i', 't']);
        assert(repo@.take(end as int).take(end - 4) =~= repo@.take(end - 4));
        end -= 4;
    }
    let ghost name = repo@.take(end as int);
    proof {
        if ends_in_git(name) {
            assert(name.skip(end - 4)[0] == '.');
            assert(name.skip(end - 4)[1] == 'g');
            assert(name.skip(end - 4)[2] == 'i');
            assert(name.skip(end - 4)[3] == 't');
        }
    }
    assert(without_git_suffix(bare) == name);
    let mut start: usize = end;
    assert(repo@.subrange(end as int, end as int) =~= Seq::empty());
    assert(last_segment(name.take(end as int)) + Seq::empty() =~= last_segment(name.take(end as int)));
    assert(name.take(end as int) =~= name);
    while start > 0 && chars[start - 1] != '/'
        invariant
            chars@ == repo@,
            start <= end <= repo@.len(),
            name == repo@.take(end as int),
            last_segment(name) == last_segment(name.take(start as int)) + repo@.subrange(
                start as int,
                end as int,
            ),
        decreases start,
    {
        assert(name.take(start as int).drop_last() =~= name.take(start - 1));
        assert(last_segment(name.take(start - 1)).push(repo@[start - 1]) + repo@.subrange(
            start as int,
            end as int,
        ) =~= last_segment(name.take(start - 1)) + repo@.subrange(start - 1, end as int));
        start -= 1;
    }
    assert(last_segment(name.take(start as int)) =~= Seq::empty());
    assert(last_segment(name) =~= repo@.subrange(start as int, end as int));
    repo.substring_char(start, end)
}

/// The label of a scan of `ref_name` in `repo`: the repository's name, `_at_`,
/// the ref name with its unusual characters replaced, and `_sloc`.
pub fn make_label(repo: &str, ref_name: &str) -> (label: String)
    ensures
        label@ == scan_label(repo@, ref_name@),
{
    let base = base_of(repo);
    let chars = chars_of(ref_name);
    let mut label = String::new();
    label.append(base);
    label.append("_at_");
    let ghost head = label@;
    let mut i: usize = 0;
    assert(ref_safe(ref_name@).take(0) =~= Seq::empty());
    assert(head + Seq::<char>::empty() =~= head);
    while i < chars.len()
        invariant
            chars@ == ref_name@,
            i <= chars@.len(),
            label@ == head + ref_safe(ref_name@).take(i as int),
        decreases chars@.len() - i,
    {
        let c = chars[i];
        if label_char(c) {
            label.push(c);
        } else {
            label.push('_');
        }
        assert(label@ =~= head + ref_safe(ref_name@).take(i + 1));
        i += 1;
    }
    assert(ref_safe(ref_name@).take(i as int) =~= ref_safe(ref_name@));
    label.append("_sloc");
    assert(head =~= repo_base(repo@) + "_at_"@);
    label
}

/// The label of one side of a comparison: the comparison's label, then the
/// side's ref name in parentheses.
pub open spec fn side_label(label: Seq<char>, ref_name: Seq<char>) -> Seq<char> {
    label + " ("@ + ref_name + ")"@
}

/// The label of one side of a comparison.
pub fn make_side_label(label: &str, ref_name: &str) -> (side: String)
    ensures
        side@ == side_label(label@, ref_name@),
{
    let mut side = String::new();
    side.append(label);
    side.append(" (");
    side.append(ref_name);
    side.append(")");
    assert(side@ =~= side_label(label@, ref_name@));
    side
}

/// A slash at the end of a repository's URL does not change the label.
pub proof fn law_label_ignores_trailing_slash(repo: Seq<char>, ref_name: Seq<char>)
    ensures
        scan_label(repo.push('/'), ref_name) == scan_label(repo, ref_name),
{
    assert(repo.push('/').drop_last() =~= repo);
}

/// A `.git` at the end of a repository's URL does not change the label. (After
/// a slash it is a segment of its own, so there it does.)
pub proof fn law_label_ignores_git_extension(repo: Seq<char>, ref_name: Seq<char>)
    requires
        repo.len() > 0 ==> repo.last() != '/',
    ensures
        scan_label(repo + seq!['.', 'g', 'i', 't'], ref_name) == scan_label(repo, ref_name),
{
    let url = repo + seq!['.', 'g', 'i', 't'];
    assert(url.last() == 't');
    assert(url.skip(url.len() - 4) =~= seq!['.', 'g', 'i', 't']);
    assert(url.take(url.len() - 4) =~= repo);
}

/// `last_segment(s)` is the part of `s` behind its last slash: it ends `s`, it
/// holds no slash, and it is all of `s` or stands behind a slash.
pub proof fn law_last_segment(s: Seq<char>)
    ensures
        last_segment(s).len() <= s.len(),
        s.skip(s.len() - last_segment(s).len()) == last_segment(s),
        forall|i: int| 0 <= i < last_segment(s).len() ==> #[trigger] last_segment(s)[i] != '/',
        last_segment(s).len() < s.len() ==> s[s.len() - last_segment(s).len() - 1] == '/',
    decreases s.len(),
{
    if s.len() == 0 || s.last() == '/' {
        assert(s.skip(s.len() as int) =~= Seq::empty());
    } else {
        let front = s.drop_last();
        law_last_segment(front);
        let n = last_segment(front).len();
        assert(s.skip(s.len() - (n + 1)) =~= front.skip(front.len() - n).push(s.last()));
    }
}

/// The repository's name, as a label has it, holds no slash.
pub proof fn law_repo_base_has_no_slash(repo: Seq<char>)
    ensures
        forall|i: int| 0 <= i < repo_base(repo).len() ==> #[trigger] repo_base(repo)[i] != '/',
{
    law_last_segment(without_git_suffix(without_trailing_slashes(repo)));
}

/// The ref part of a label is as long as the ref name and holds nothing but
/// label characters and underscores; it is what it would be made into again.
pub proof fn law_ref_safe(ref_name: Seq<char>)
    ensures
        ref_safe(ref_name).len() == ref_name.len(),
        forall|i: int|
            0 <= i < ref_name.len() ==> is_label_char(#[trigger] ref_safe(ref_name)[i])
                || ref_safe(ref_name)[i] == '_',
        ref_safe(ref_safe(ref_name)) == ref_safe(ref_name),
{
    assert(ref_safe(ref_safe(ref_name)) =~= ref_safe(ref_name));
}

/// Whatever the ref, its label has letters and digits (of any script), `-`, `.`
/// and `_` between the repository's name and the end, and no slash anywhere.
pub proof fn law_label_characters(repo: Seq<char>, ref_name: Seq<char>)
    ensures
        forall|i: int|
            repo_base(repo).len() <= i < scan_label(repo, ref_name).len() ==> {
                let c = #[trigger] scan_label(repo, ref_name)[i];
                is_label_char(c) || c == '_'
            },
        !scan_label(repo, ref_name).contains('/'),
{
    reveal_strlit("_at_");
    reveal_strlit("_sloc");
    law_repo_base_has_no_slash(repo);
    let n = repo_base(repo).len();
    let label = scan_label(repo, ref_name);
    assert forall|i: int| n <= i < label.len() implies {
        let c = #[trigger] label[i];
        is_label_char(c) || c == '_'
    } by {
        if n + 4 <= i < n + 4 + ref_name.len() {
            let k = i - n - 4;
            assert(label[i] == ref_safe(ref_name)[k]);
        } else if i < n + 4 {
            assert(label[i] == "_at_"@[i - n]);
        } else {
            assert(label[i] == "_sloc"@[i - n - 4 - ref_name.len()]);
        }
    }
    assert forall|i: int| 0 <= i < label.len() implies #[trigger] label[i] != '/' by {
        if i < n {
            assert(label[i] == repo_base(repo)[i]);
        }
    }
}

/// The two sides of a comparison are told apart by their labels whenever their
/// refs differ.
pub proof fn law_side_labels_differ(label: Seq<char>, a: Seq<char>, b: Seq<char>)
    ensures
        side_label(label, a) == side_label(label, b) <==> a == b,
{
    if side_label(label, a) == side_label(label, b) {
        reveal_strlit(" (");
        reveal_strlit(")");
        let n = label.len() as int;
        let sa = side_label(label, a);
        let sb = side_label(label, b);
        assert(sa.subrange(n + 2, sa.len() - 1) =~= a);
        assert(sb.subrange(n + 2, sb.len() - 1) =~= b);
    }
}

/// A label is the repository's name, `_at_`, one character for each of the ref
/// name, and `_sloc`. Letters and digits of the ref name survive in it, and so do
/// hyphens and dots; of all else there is an underscore.
pub proof fn law_label_shows_the_ref(repo: Seq<char>, ref_name: Seq<char>)
    ensures
        ({
            let n = repo_base(repo).len() as int;
            let m = n + 4 + ref_name.len();
            let label = scan_label(repo, ref_name);
            &&& label.len() == m + 5
            &&& label.take(n) == repo_base(repo)
            &&& label[n] == '_' && label[n + 1] == 'a' && label[n + 2] == 't' && label[n + 3] == '_'
            &&& forall|i: int|
                0 <= i < ref_name.len() ==> {
                    let c = #[trigger] ref_name[i];
                    let code = c as int;
                    let kept = label[n + 4 + i];
                    &&& 'a' <= c <= 'z' || 'A' <= c <= 'Z' || '0' <= c <= '9' ==> kept == c
                    &&& c == '-' || c == '.' ==> kept == c
                    &&& code >= 128 && unicode_alphanumeric(c) ==> kept == c
                    &&& code >= 128 && !unicode_alphanumeric(c) ==> kept == '_'
                    &&& code < 48 && code != 45 && code != 46 ==> kept == '_'
                    &&& 57 < code < 65 || 90 < code < 97 || 122 < code < 128 ==> kept == '_'
                }
            &&& label[m] == '_' && label[m + 1] == 's' && label[m + 2] == 'l'
            &&& label[m + 3] == 'o' && label[m + 4] == 'c'
        }),
{
    reveal_strlit("_at_");
    reveal_strlit("_sloc");
    let n = repo_base(repo).len() as int;
    let m = n + 4 + ref_name.len();
    let label = scan_label(repo, ref_name);
    assert(label.take(n) =~= repo_base(repo));
    assert(label[n] == "_at_"@[0] && label[n + 1] == "_at_"@[1]);
    assert(label[n + 2] == "_at_"@[2] && label[n + 3] == "_at_"@[3]);
    assert(label[m] == "_sloc"@[0] && label[m + 1] == "_sloc"@[1]);
    assert(label[m + 2] == "_sloc"@[2] && label[m + 3] == "_sloc"@[3]);
    assert(label[m + 4] == "_sloc"@[4]);
    assert forall|i: int| 0 <= i < ref_name.len() implies label[n + 4 + i] == ref_safe(ref_name)[i]
        && #[trigger] ref_name[i] == ref_name[i] by {}
}

/// Two refs made of letters, digits, hyphens and dots have two labels.
pub proof fn law_labels_tell_plain_refs_apart(repo: Seq<char>, a: Seq<char>, b: Seq<char>)
    requires
        forall|i: int|
            0 <= i < a.len() ==> {
                let c = #[trigger] a[i];
                'a' <= c <= 'z' || 'A' <= c <= 'Z' || '0' <= c <= '9' || c == '-' || c == '.'
            },
        forall|i: int|
            0 <= i < b.len() ==> {
                let c = #[trigger] b[i];
                'a' <= c <= 'z' || 'A' <= c <= 'Z' || '0' <= c <= '9' || c == '-' || c == '.'
            },
    ensures
        scan_label(repo, a) == scan_label(repo, b) <==> a == b,
{
    law_label_shows_the_ref(repo, a);
    law_label_shows_the_ref(repo, b);
    if scan_label(repo, a) == scan_label(repo, b) {
        assert forall|i: int| 0 <= i < a.len() implies #[trigger] a[i] == b[i] by {
            assert(scan_label(repo, a)[repo_base(repo).len() as int + 4 + i] == a[i]);
        }
        assert(a =~= b);
    }
}

/// `k` times `.git`.
pub open spec fn git_extensions(k: nat) -> Seq<char>
    decreases k,
{
    if k == 0 {
        Seq::empty()
    } else {
        git_extensions((k - 1) as nat) + seq!['.', 'g', 'i', 't']
    }
}

/// `k` slashes.
pub open spec fn slashes(k: nat) -> Seq<char> {
    Seq::new(k, |i: int| '/')
}

proof fn lemma_slashes_are_dropped(s: Seq<char>, k: nat)
    requires
        s.len() > 0 ==> s.last() != '/',
    ensures
        without_trailing_slashes(s + slashes(k)) == s,
    decreases k,
{
    if k == 0 {
        assert(s + slashes(k) =~= s);
    } else {
        assert((s + slashes(k)).drop_last() =~= s + slashes((k - 1) as nat));
        lemma_slashes_are_dropped(s, (k - 1) as nat);
    }
}

proof fn lemma_extensions_are_dropped(s: Seq<char>, k: nat)
    requires
        !(s.len() >= 4 && s.subrange(s.len() - 4, s.len() as int) == seq!['.', 'g', 'i', 't']),
    ensures
        without_git_suffix(s + git_extensions(k)) == s,
    decreases k,
{
    if k == 0 {
        assert(s + git_extensions(k) =~= s);
        if s.len() >= 4 {
            assert(s.skip(s.len() - 4) =~= s.subrange(s.len() - 4, s.len() as int));
        }
    } else {
        let whole = s + git_extensions(k);
        assert(whole.skip(whole.len() - 4) =~= seq!['.', 'g', 'i', 't']);
        assert(whole.take(whole.len() - 4) =~= s + git_extensions((k - 1) as nat));
        lemma_extensions_are_dropped(s, (k - 1) as nat);
    }
}

proof fn lemma_segment(prefix: Seq<char>, name: Seq<char>)
    requires
        prefix.len() > 0 ==> prefix.last() == '/',
        !name.contains('/'),
    ensures
        last_segment(prefix + name) == name,
    decreases name.len(),
{
    if name.len() == 0 {
        assert(prefix + name =~= prefix);
        assert(last_segment(prefix) =~= name);
    } else {
        assert(name.contains(name.last()));
        let front = name.drop_last();
        assert(!front.contains('/')) by {
            if front.contains('/') {
                let i = choose|i: int| 0 <= i < front.len() && front[i] == '/';
                assert(name[i] == '/');
            }
        }
        lemma_segment(prefix, front);
        assert((prefix + name).drop_last() =~= prefix + front);
        assert(name =~= front.push(name.last()));
    }
}

/// The name of a repository is what its URL or path ends in: behind `prefix`,
/// which is empty or ends in a slash, and before any `.git` and then any slashes
/// at the end. (A name that is empty takes a `.git` to be seen.)
pub proof fn law_repo_base(prefix: Seq<char>, name: Seq<char>, gits: nat, trailing: nat)
    requires
        prefix.len() > 0 ==> prefix.last() == '/',
        !name.contains('/'),
        !(name.len() >= 4 && name.subrange(name.len() - 4, name.len() as int) == seq![
            '.',
            'g',
            'i',
            't',
        ]),
        name.len() > 0 || gits > 0 || prefix.len() == 0,
    ensures
        repo_base(prefix + name + git_extensions(gits) + slashes(trailing)) == name,
{
    let path = prefix + name;
    let url = path + git_extensions(gits);
    if url.len() > 0 {
        if gits > 0 {
            assert(url.last() == 't');
        } else {
            assert(url =~= path);
            if name.len() > 0 {
                assert(url.last() == name.last());
                assert(name.contains(name.last()));
            }
        }
    }
    lemma_slashes_are_dropped(url, trailing);
    if path.len() >= 4 && path.subrange(path.len() - 4, path.len() as int) == seq![
        '.',
        'g',
        'i',
        't',
    ] {
        let end = path.subrange(path.len() - 4, path.len() as int);
        assert(end[0] == '.' && end[1] == 'g' && end[2] == 'i' && end[3] == 't');
        if name.len() >= 4 {
            assert(name.subrange(name.len() - 4, name.len() as int) =~= end);
        } else {
            assert(prefix.last() == end[3 - name.len()]);
        }
    }
    lemma_extensions_are_dropped(path, gits);
    lemma_segment(prefix, name);
}

/// Every URL or path is of that form.
pub proof fn law_repo_base_is_always_found(repo: Seq<char>) -> (parts: (
    Seq<char>,
    Seq<char>,
    nat,
    nat,
))
    ensures
        ({
            let (prefix, name, gits, trailing) = parts;
            &&& repo == prefix + name + git_extensions(gits) + slashes(trailing)
            &&& prefix.len() > 0 ==> prefix.last() == '/'
            &&& !name.contains('/')
            &&& !(name.len() >= 4 && name.subrange(name.len() - 4, name.len() as int) == seq![
                '.',
                'g',
                'i',
                't',
            ])
            &&& name.len() > 0 || gits > 0 || prefix.len() == 0
            &&& repo_base(repo) == name
        }),
    decreases repo.len(),
{
    if repo.len() > 0 && repo.last() == '/' {
        let (prefix, name, gits, trailing) = law_repo_base_is_always_found(repo.drop_last());
        let shorter = prefix + name + git_extensions(gits) + slashes(trailing);
        assert(repo =~= repo.drop_last().push('/'));
        assert(shorter.push('/') =~= prefix + name + git_extensions(gits) + slashes(trailing + 1));
        law_repo_base(prefix, name, gits, trailing + 1);
        (prefix, name, gits, trailing + 1)
    } else {
        let gits = lemma_split_extensions(repo);
        let path = repo.take(repo.len() - 4 * gits);
        let (prefix, name) = lemma_split_segment(path);
        assert(repo =~= prefix + name + git_extensions(gits) + slashes(0));
        if name.len() >= 4 {
            assert(name.subrange(name.len() - 4, name.len() as int) =~= path.subrange(
                path.len() - 4,
                path.len() as int,
            ));
        }
        if gits == 0 {
            assert(path =~= repo);
            assert(path =~= prefix + name);
        }
        law_repo_base(prefix, name, gits, 0);
        (prefix, name, gits, 0)
    }
}

proof fn lemma_split_extensions(s: Seq<char>) -> (k: nat)
    ensures
        4 * k <= s.len(),
        s.skip(s.len() - 4 * k) == git_extensions(k),
        git_extensions(k).len() == 4 * k,
        ({
            let rest = s.take(s.len() - 4 * k);
            !(rest.len() >= 4 && rest.subrange(rest.len() - 4, rest.len() as int) == seq![
                '.',
                'g',
                'i',
                't',
            ])
        }),
    decreases s.len(),
{
    if s.len() >= 4 && s.subrange(s.len() - 4, s.len() as int) == seq!['.', 'g', 'i', 't'] {
        let front = s.take(s.len() - 4);
        let k = lemma_split_extensions(front);
        assert(s.take(s.len() - 4 * (k + 1)) =~= front.take(front.len() - 4 * k));
        assert(s.skip(s.len() - 4 * (k + 1)) =~= front.skip(front.len() - 4 * k) + s.subrange(
            s.len() - 4,
            s.len() as int,
        ));
        k + 1
    } else {
        assert(s.skip(s.len() as int) =~= git_extensions(0));
        assert(s.take(s.len() as int) =~= s);
        0
    }
}

proof fn lemma_split_segment(s: Seq<char>) -> (parts: (Seq<char>, Seq<char>))
    ensures
        s == parts.0 + parts.1,
        parts.0.len() > 0 ==> parts.0.last() == '/',
        !parts.1.contains('/'),
    decreases s.len(),
{
    if s.len() == 0 || s.last() == '/' {
        assert(s =~= s + Seq::<char>::empty());
        (s, Seq::empty())
    } else {
        let (prefix, name) = lemma_split_segment(s.drop_last());
        let longer = name.push(s.last());
        assert(s =~= s.drop_last().push(s.last()));
        assert((prefix + name).push(s.last()) =~= prefix + longer);
        assert(!longer.contains('/')) by {
            if longer.contains('/') {
                let i = choose|i: int| 0 <= i < longer.len() && longer[i] == '/';
                assert(name[i] == '/');
            }
        }
        (prefix, longer)
    }
}

/// The label of one side of a comparison begins with the label of the whole and
/// ends in the side's ref name, in parentheses and behind a blank.
pub proof fn law_side_label_shows_the_ref(label: Seq<char>, ref_name: Seq<char>)
    ensures
        ({
            let n = label.len() as int;
            let side = side_label(label, ref_name);
            &&& side.len() == n + ref_name.len() + 3
            &&& side.take(n) == label
            &&& side[n] == ' ' && side[n + 1] == '('
            &&& side.subrange(n + 2, side.len() - 1) == ref_name
            &&& side.last() == ')'
        }),
{
    reveal_strlit(" (");
    reveal_strlit(")");
    let n = label.len() as int;
    let side = side_label(label, ref_name);
    assert(side.take(n) =~= label);
    assert(side.subrange(n + 2, side.len() - 1) =~= ref_name);
}

} // verus!
