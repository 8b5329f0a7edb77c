//! JSON texts, as `serde_json` writes them.

use serde::Serializer;

use vstd::prelude::*;

verus! {

/// `serde_json::Error`. Nothing is known of what is inside.
#[verifier::external_type_specification]
#[verifier::external_body]
pub struct ExJsonError(serde_json::Error);

/// The lower-case hexadecimal digit of `n`.
pub open spec fn hex_digit(n: int) -> char {
    if n < 10 {
        (n + '0' as int) as char
    } else {
        (n - 10 + 'a' as int) as char
    }
}

/// A character inside a JSON string: the quote, the backslash and the control
/// characters below the blank are escaped.
pub open spec fn json_char(c: char) -> Seq<char> {
    if c == '"' || c == '\\' {
        seq!['\\', c]
    } else if c == '\u{8}' {
        seq!['\\', 'b']
    } else if c == '\t' {
        seq!['\\', 't']
    } else if c == '\n' {
        seq!['\\', 'n']
    } else if c == '\u{c}' {
        seq!['\\', 'f']
    } else if c == '\r' {
        seq!['\\', 'r']
    } else if ' ' > c {
        seq!['\\', 'u', '0', '0', hex_digit(c as int / 16), hex_digit(c as int % 16)]
    } else {
        seq![c]
    }
}

/// The characters of `s` inside a JSON string.
pub open spec fn json_chars(s: Seq<char>) -> Seq<char>
    decreases s.len(),
{
    if s.len() == 0 {
        Seq::empty()
    } else {
        json_char(s.first()) + json_chars(s.drop_first())
    }
}

/// `s` as a JSON string.
pub open spec fn json_string(s: Seq<char>) -> Seq<char> {
    seq!['"'] + json_chars(s) + seq!['"']
}

/// The members of a JSON object whose values are strings, in their order.
pub open spec fn json_members(fields: Seq<(Seq<char>, Seq<char>)>) -> Seq<char>
    decreases fields.len(),
{
    if fields.len() == 0 {
        Seq::empty()
    } else {
        let (key, value) = fields.last();
        let member = json_string(key) + seq![':'] + json_string(value);
        if fields.len() == 1 {
            member
        } else {
            json_members(fields.drop_last()) + seq![','] + member
        }
    }
}

/// A JSON object whose values are strings, its members in the order given.
pub open spec fn json_object(fields: Seq<(Seq<char>, Seq<char>)>) -> Seq<char> {
    seq!['{'] + json_members(fields) + seq!['}']
}

/// A list of fields as characters.
pub open spec fn field_views(fields: Seq<(String, String)>) -> Seq<(Seq<char>, Seq<char>)> {
    fields.map_values(|f: (String, String)| (f.0@, f.1@))
}

/// `serde_json::to_string` on a string. It writes into a vector, which takes
/// every write, and a string has a JSON form always, so there is no error; the
/// text is the string in quotes with its special characters escaped.
#[verifier::external_body]
pub(crate) fn string_to_json(s: &str) -> (res: Result<String, serde_json::Error>)
    ensures
        res is Ok,
        res->Ok_0@ == json_string(s@),
{
    serde_json::to_string(s)
}

/// `serde::Serializer::collect_map` on a `serde_json::Serializer` that writes
/// compact JSON into a vector: an object with one member for each pair, in the
/// order of the pairs. The vector takes every write and all keys are strings,
/// so there is no error.
#[verifier::external_body]
pub(crate) fn fields_to_json(fields: &Vec<(String, String)>) -> (res: Result<
    String,
    serde_json::Error,
>)
    ensures
        res is Ok,
        res->Ok_0@ == json_object(field_views(fields@)),
{
    let mut out: Vec<u8> = Vec::new();
    serde_json::Serializer::new(&mut out).collect_map(fields.iter().map(|f| (&f.0, &f.1)))?;
    Ok(String::from_utf8_lossy(&out).into_owned())
}

/// No escape sequence is the beginning of another one or of a plain character.
proof fn lemma_json_char_is_prefix_free(a: char, b: char, x: Seq<char>, y: Seq<char>)
    requires
        json_char(a) + x == json_char(b) + y,
    ensures
        a == b,
        x == y,
{
    let left = json_char(a) + x;
    let right = json_char(b) + y;
    let p = json_char(a);
    let q = json_char(b);
    assert(left[0] == p[0] && right[0] == q[0]);
    if p.len() > 1 && q.len() > 1 {
        assert(left[1] == p[1] && right[1] == q[1]);
        if p.len() == 6 && q.len() == 6 {
            assert(left[4] == p[4] && right[4] == q[4]);
            assert(left[5] == p[5] && right[5] == q[5]);
        }
    }
    assert(a == b);
    assert(x =~= left.skip(p.len() as int));
    assert(y =~= right.skip(q.len() as int));
}

/// The first quote that is not escaped ends a JSON string.
proof fn lemma_json_chars_end(a: Seq<char>, b: Seq<char>, x: Seq<char>, y: Seq<char>)
    requires
        json_chars(a) + seq!['"'] + x == json_chars(b) + seq!['"'] + y,
    ensures
        a == b,
        x == y,
    decreases a.len(),
{
    let left = json_chars(a) + seq!['"'] + x;
    let right = json_chars(b) + seq!['"'] + y;
    if a.len() == 0 && b.len() == 0 {
        assert(x =~= left.skip(1));
        assert(y =~= right.skip(1));
        assert(a =~= b);
    } else if a.len() == 0 {
        assert(left[0] == '"');
        assert(right[0] == json_char(b.first())[0]);
    } else if b.len() == 0 {
        assert(right[0] == '"');
        assert(left[0] == json_char(a.first())[0]);
    } else {
        let rest_a = json_chars(a.drop_first()) + seq!['"'] + x;
        let rest_b = json_chars(b.drop_first()) + seq!['"'] + y;
        assert(left =~= json_char(a.first()) + rest_a);
        assert(right =~= json_char(b.first()) + rest_b);
        lemma_json_char_is_prefix_free(a.first(), b.first(), rest_a, rest_b);
        lemma_json_chars_end(a.drop_first(), b.drop_first(), x, y);
        assert(a =~= seq![a.first()] + a.drop_first());
        assert(b =~= seq![b.first()] + b.drop_first());
    }
}

/// A JSON string says which string it was made of, and where it ends.
pub proof fn law_json_string_is_unambiguous(a: Seq<char>, b: Seq<char>, x: Seq<char>, y: Seq<char>)
    requires
        json_string(a) + x == json_string(b) + y,
    ensures
        a == b,
        x == y,
{
    let left = json_string(a) + x;
    let right = json_string(b) + y;
    assert(left.skip(1) =~= json_chars(a) + seq!['"'] + x);
    assert(right.skip(1) =~= json_chars(b) + seq!['"'] + y);
    lemma_json_chars_end(a, b, x, y);
}

/// A JSON string holds no control character: a message of several lines
/// becomes a text of one line.
pub proof fn law_json_string_is_one_line(s: Seq<char>)
    ensures
        forall|i: int| 0 <= i < json_string(s).len() ==> #[trigger] json_string(s)[i] >= ' ',
{
    lemma_json_chars_printable(s);
}

proof fn lemma_json_char_printable(c: char)
    ensures
        forall|i: int| 0 <= i < json_char(c).len() ==> #[trigger] json_char(c)[i] >= ' ',
{
    let n = c as int;
    if n < 32 {
        assert(0 <= n / 16 < 16 && 0 <= n % 16 < 16);
        assert(hex_digit(n / 16) >= '0' && hex_digit(n % 16) >= '0');
    }
}

proof fn lemma_json_chars_printable(s: Seq<char>)
    ensures
        forall|i: int| 0 <= i < json_chars(s).len() ==> #[trigger] json_chars(s)[i] >= ' ',
    decreases s.len(),
{
    if s.len() > 0 {
        lemma_json_chars_printable(s.drop_first());
        let head = json_char(s.first());
        lemma_json_char_printable(s.first());
        assert forall|i: int| 0 <= i < json_chars(s).len() implies #[trigger] json_chars(s)[i]
            >= ' ' by {
            if i < head.len() {
                assert(json_chars(s)[i] == head[i]);
            } else {
                assert(json_chars(s)[i] == json_chars(s.drop_first())[i - head.len()]);
            }
        }
    }
}

/// A text is escaped piece by piece.
pub proof fn law_json_chars_of_two(a: Seq<char>, b: Seq<char>)
    ensures
        json_chars(a + b) == json_chars(a) + json_chars(b),
    decreases a.len(),
{
    if a.len() == 0 {
        assert(a + b =~= b);
        assert(json_chars(a) + json_chars(b) =~= json_chars(b));
    } else {
        assert((a + b).drop_first() =~= a.drop_first() + b);
        law_json_chars_of_two(a.drop_first(), b);
        assert(json_chars(a + b) =~= json_chars(a) + json_chars(b));
    }
}

/// A text without quotes, backslashes and control characters is itself, in
/// quotes.
pub proof fn law_json_string_of_plain_text(s: Seq<char>)
    requires
        forall|i: int|
            0 <= i < s.len() ==> #[trigger] s[i] as int >= 32 && s[i] != '"' && s[i] != '\\',
    ensures
        json_string(s) == seq!['"'] + s + seq!['"'],
{
    lemma_json_chars_plain(s);
}

proof fn lemma_json_chars_plain(s: Seq<char>)
    requires
        forall|i: int|
            0 <= i < s.len() ==> #[trigger] s[i] as int >= 32 && s[i] != '"' && s[i] != '\\',
    ensures
        json_chars(s) == s,
    decreases s.len(),
{
    if s.len() > 0 {
        assert(s[0] as int >= 32);
        let rest = s.drop_first();
        assert forall|i: int| 0 <= i < rest.len() implies #[trigger] rest[i] as int >= 32
            && rest[i] != '"' && rest[i] != '\\' by {
            assert(s[i + 1] as int >= 32);
        }
        lemma_json_chars_plain(rest);
        assert(s =~= seq![s.first()] + rest);
    }
}

/// The value of a hexadecimal digit.
pub open spec fn hex_value(c: char) -> int {
    if 'a' <= c <= 'f' {
        c as int - 'a' as int + 10
    } else {
        c as int - '0' as int
    }
}

/// What stands for a character in a JSON string can be read back: a backslash
/// and one more character stand for a quote, a backslash or one of five control
/// characters, and `\u00` with two digits for the control character of that
/// code.
pub proof fn law_json_escape(c: char)
    ensures
        ({
            let code = c as int;
            let text = json_char(c);
            &&& code >= 32 && code != 34 && code != 92 ==> text == seq![c]
            &&& code == 34 || code == 92 ==> text == seq!['\\', c]
            &&& code == 8 ==> text == seq!['\\', 'b']
            &&& code == 9 ==> text == seq!['\\', 't']
            &&& code == 10 ==> text == seq!['\\', 'n']
            &&& code == 12 ==> text == seq!['\\', 'f']
            &&& code == 13 ==> text == seq!['\\', 'r']
            &&& code < 8 || code == 11 || 13 < code < 32 ==> {
                &&& text.len() == 6
                &&& text.take(4) == seq!['\\', 'u', '0', '0']
                &&& '0' <= text[4] <= '9' || 'a' <= text[4] <= 'f'
                &&& '0' <= text[5] <= '9' || 'a' <= text[5] <= 'f'
                &&& 16 * hex_value(text[4]) + hex_value(text[5]) == code
            }
        }),
{
    let code = c as int;
    let text = json_char(c);
    if code < 8 || code == 11 || 13 < code < 32 {
        assert(text.take(4) =~= seq!['\\', 'u', '0', '0']);
        assert(0 <= code / 16 < 16 && 0 <= code % 16 < 16);
    }
}

/// A list of fields as characters, one for one.
pub proof fn law_field_views(fields: Seq<(String, String)>)
    ensures
        field_views(fields).len() == fields.len(),
        forall|i: int|
            0 <= i < fields.len() ==> #[trigger] field_views(fields)[i] == (
                fields[i].0@,
                fields[i].1@,
            ),
{
}

/// The text of an object is that of its members between braces. Two lists of
/// members, one after the other, have a comma between them; one member is its
/// key, a colon and its value.
pub proof fn law_json_members(
    a: Seq<(Seq<char>, Seq<char>)>,
    b: Seq<(Seq<char>, Seq<char>)>,
    key: Seq<char>,
    value: Seq<char>,
)
    ensures
        json_object(a) == seq!['{'] + json_members(a) + seq!['}'],
        json_members(Seq::empty()) == Seq::<char>::empty(),
        json_members(seq![(key, value)]) == json_string(key) + seq![':'] + json_string(value),
        a.len() > 0 && b.len() > 0 ==> json_members(a + b) == json_members(a) + seq![',']
            + json_members(b),
    decreases b.len(),
{
    if a.len() > 0 && b.len() > 0 {
        let front = b.drop_last();
        assert((a + b).drop_last() =~= a + front);
        assert((a + b).last() == b.last());
        if b.len() == 1 {
            assert(a + front =~= a);
        } else {
            law_json_members(a, front, key, value);
            let (k, v) = b.last();
            assert(json_members(a + b) =~= json_members(a) + seq![','] + (json_members(front)
                + seq![','] + (json_string(k) + seq![':'] + json_string(v))));
        }
    }
}

} // verus!
