//! Which strings are accepted as the name of a git ref.

use vstd::prelude::*;
use vstd::string::*;
use vstd::utf8::{encode_utf8, is_ascii_chars, is_ascii_chars_encode_utf8};

use crate::text::chars_of;

verus! {

/// The longest accepted ref name, in bytes.
pub const MAX_REF_LEN: usize = 256;

/// An ASCII letter or digit.
pub open spec fn is_ascii_alnum(c: char) -> bool {
    ||| 'a' <= c <= 'z'
    ||| 'A' <= c <= 'Z'
    ||| '0' <= c <= '9'
}

/// The characters a ref name may be made of: of ASCII the letters, the digits
/// and some marks; beyond ASCII whatever is no control character.
pub open spec fn is_ref_char(c: char) -> bool {
    ||| is_ascii_alnum(c)
    ||| c == '-' || c == '_' || c == '.' || c == '/' || c == '@' || c == '+'
    ||| c > '\u{9f}'
}

/// An accepted ref name: not empty, at most 256 bytes long, made of ref
/// characters, no leading `/` or `-`, and no two dots in a row.
pub open spec fn valid_git_ref(s: Seq<char>) -> bool {
    &&& 0 < s.len()
    &&& encode_utf8(s).len() <= MAX_REF_LEN
    &&& forall|i: int| 0 <= i < s.len() ==> is_ref_char(#[trigger] s[i])
    &&& s[0] != '/'
    &&& s[0] != '-'
    &&& forall|i: int, j: int|
        0 <= i < s.len() && j == i + 1 && j < s.len() ==> !(#[trigger] s[i] == '.' && #[trigger] s[j]
            == '.')
}

/// Is `c` an ASCII letter or digit?
pub fn ascii_alnum(c: char) -> (yes: bool)
    ensures
        yes == is_ascii_alnum(c),
{
    ('a' <= c && c <= 'z') || ('A' <= c && c <= 'Z') || ('0' <= c && c <= '9')
}

/// May a ref name contain `c`?
fn ref_char(c: char) -> (yes: bool)
    ensures
        yes == is_ref_char(c),
{
    ascii_alnum(c) || c == '-' || c == '_' || c == '.' || c == '/' || c == '@' || c == '+' || c
        > '\u{9f}'
}

/// Allow the same character set git itself accepts for ref names, plus a
/// conservative length cap. Blocks path traversal via `..`, absolute paths,
/// option-like names and shell-special characters.
pub fn is_valid_git_ref(s: &str) -> (ok: bool)
    ensures
        ok == valid_git_ref(s@),
{
    let chars = chars_of(s);
    if chars.len() == 0 || s.as_bytes().len() > MAX_REF_LEN {
        return false;
    }
    if chars[0] == '/' || chars[0] == '-' {
        return false;
    }
    let mut i: usize = 0;
    while i < chars.len()
        invariant
            chars@ == s@,
            0 <= i <= chars@.len(),
            forall|k: int| 0 <= k < i ==> is_ref_char(#[trigger] s@[k]),
            forall|k: int, j: int|
                0 <= k < i && j == k + 1 && j < i ==> !(#[trigger] s@[k] == '.' && #[trigger] s@[j]
                    == '.'),
        decreases chars@.len() - i,
    {
        let c = chars[i];
        if !ref_char(c) || (i > 0 && c == '.' && chars[i - 1] == '.') {
            return false;
        }
        i += 1;
    }
    true
}

/// An accepted ref can be handed to git as a revision: it is not empty and at
/// most 256 bytes long; it is no option, no absolute path, no step up the
/// directory tree (`..` occurs nowhere in it), and no revision syntax, ASCII
/// blank, control or shell character is part of it.
pub proof fn law_valid_ref_is_a_plain_name(s: Seq<char>)
    requires
        valid_git_ref(s),
    ensures
        s.len() > 0,
        encode_utf8(s).len() <= 256,
        s.first() != '-',
        s.first() != '/',
        forall|i: int, j: int|
            0 <= i <= j <= s.len() ==> #[trigger] s.subrange(i, j) != seq!['.', '.'],
        forall|i: int|
            0 <= i < s.len() ==> {
                let c = #[trigger] s[i];
                &&& ' ' < c
                &&& !('\u{7f}' <= c <= '\u{9f}')
                &&& c != '~' && c != '^' && c != ':' && c != '?' && c != '*' && c != '[' && c != '\\'
                &&& c != '$' && c != '`' && c != ';' && c != '|' && c != '&' && c != '<' && c != '>'
                &&& c != '!' && c != '(' && c != ')' && c != '{' && c != '}' && c != '#'
                &&& c != '"' && c != '\'' && c != '=' && c != '%' && c != ',' && c != ']'
            },
        forall|i: int|
            0 <= i < s.len() && (#[trigger] s[i] as int) < 128 ==> {
                ||| '0' <= s[i] <= '9' || 'A' <= s[i] <= 'Z' || 'a' <= s[i] <= 'z'
                ||| seq!['-', '_', '.', '/', '@', '+'].contains(s[i])
            },
{
    let marks = seq!['-', '_', '.', '/', '@', '+'];
    assert(marks[0] == '-' && marks[1] == '_' && marks[2] == '.' && marks[3] == '/');
    assert(marks[4] == '@' && marks[5] == '+');
    assert forall|i: int, j: int| 0 <= i <= j <= s.len() implies #[trigger] s.subrange(i, j)
        != seq!['.', '.'] by {
        let part = s.subrange(i, j);
        if part == seq!['.', '.'] {
            assert(part.len() == 2);
            assert(part[0] == s[i] && part[1] == s[i + 1]);
        }
    }
    assert forall|i: int| 0 <= i < s.len() implies is_ref_char(#[trigger] s[i]) by {}
}

/// What is there to be scanned is accepted. Any name of 1 to 256 bytes is, if it
/// has no other ASCII characters than letters, digits and `- _ . / @ +` and no
/// control character, does not begin with a slash or a hyphen, and has no `..`
/// in it.
pub proof fn law_ordinary_ref_is_accepted(s: Seq<char>)
    requires
        s.len() > 0,
        encode_utf8(s).len() <= 256,
        forall|i: int|
            0 <= i < s.len() ==> {
                let c = #[trigger] s[i];
                ||| '0' <= c <= '9' || 'A' <= c <= 'Z' || 'a' <= c <= 'z'
                ||| seq!['-', '_', '.', '/', '@', '+'].contains(c)
                ||| c as int >= 160
            },
        s.first() != '/',
        s.first() != '-',
        forall|i: int|
            0 <= i < s.len() - 1 ==> #[trigger] s.subrange(i, i + 2) != seq!['.', '.'],
    ensures
        valid_git_ref(s),
{
    assert forall|i: int, j: int|
        0 <= i < s.len() && j == i + 1 && j < s.len() implies !(#[trigger] s[i] == '.'
        && #[trigger] s[j] == '.') by {
        if s[i] == '.' && s[j] == '.' {
            assert(s.subrange(i, i + 2) =~= seq!['.', '.']);
        }
    }
}

/// On ASCII the length may be counted in characters.
pub proof fn law_ascii_ref_is_accepted(s: Seq<char>)
    requires
        0 < s.len() <= 256,
        forall|i: int|
            0 <= i < s.len() ==> {
                let c = #[trigger] s[i];
                ||| '0' <= c <= '9' || 'A' <= c <= 'Z' || 'a' <= c <= 'z'
                ||| seq!['-', '_', '.', '/', '@', '+'].contains(c)
            },
        s.first() != '/',
        s.first() != '-',
        forall|i: int|
            0 <= i < s.len() - 1 ==> #[trigger] s.subrange(i, i + 2) != seq!['.', '.'],
    ensures
        valid_git_ref(s),
{
    assert(is_ascii_chars(s));
    is_ascii_chars_encode_utf8(s);
    law_ordinary_ref_is_accepted(s);
}

/// Every commit hash is accepted, whole or abbreviated, and whatever digit it
/// begins with.
pub proof fn law_commit_hash_is_accepted(s: Seq<char>)
    requires
        0 < s.len() <= 256,
        forall|i: int|
            0 <= i < s.len() ==> {
                let c = #[trigger] s[i];
                '0' <= c <= '9' || 'a' <= c <= 'f' || 'A' <= c <= 'F'
            },
    ensures
        valid_git_ref(s),
{
    assert forall|i: int| 0 <= i < s.len() - 1 implies #[trigger] s.subrange(i, i + 2) != seq![
        '.',
        '.',
    ] by {
        assert(s.subrange(i, i + 2)[0] == s[i]);
    }
    law_ascii_ref_is_accepted(s);
}

/// The bytes of two texts, one after the other.
proof fn lemma_bytes_of_two(a: Seq<char>, b: Seq<char>)
    ensures
        encode_utf8(a + b).len() == encode_utf8(a).len() + encode_utf8(b).len(),
    decreases a.len(),
{
    if a.len() == 0 {
        assert(a + b =~= b);
    } else {
        lemma_bytes_of_two(a.drop_first(), b);
        assert((a + b).drop_first() =~= a.drop_first() + b);
    }
}

/// What an accepted ref begins with is accepted, down to its first character.
pub proof fn law_beginning_of_ref_is_accepted(s: Seq<char>, n: int)
    requires
        valid_git_ref(s),
        0 < n <= s.len(),
    ensures
        valid_git_ref(s.take(n)),
{
    assert(s =~= s.take(n) + s.skip(n));
    lemma_bytes_of_two(s.take(n), s.skip(n));
}

/// Accepted refs can be nested: `a/b` is accepted wherever `a` and `b` are and it
/// is not too long.
pub proof fn law_nested_ref_is_accepted(a: Seq<char>, b: Seq<char>)
    requires
        valid_git_ref(a),
        valid_git_ref(b),
        encode_utf8(a).len() + 1 + encode_utf8(b).len() <= 256,
    ensures
        valid_git_ref(a + seq!['/'] + b),
{
    let slash = seq!['/'];
    let s = a + slash + b;
    assert(is_ascii_chars(slash));
    is_ascii_chars_encode_utf8(slash);
    lemma_bytes_of_two(a, slash);
    lemma_bytes_of_two(a + slash, b);
    let n = a.len() as int;
    assert forall|i: int| 0 <= i < s.len() implies is_ref_char(#[trigger] s[i]) by {
        if i < n {
            assert(s[i] == a[i]);
        } else if i > n {
            assert(s[i] == b[i - n - 1]);
        }
    }
    assert forall|i: int, j: int|
        0 <= i < s.len() && j == i + 1 && j < s.len() implies !(#[trigger] s[i] == '.'
        && #[trigger] s[j] == '.') by {
        if j < n {
            assert(s[i] == a[i] && s[j] == a[j]);
        } else if i > n {
            assert(s[i] == b[i - n - 1] && s[j] == b[j - n - 1]);
        }
    }
}

} // verus!
