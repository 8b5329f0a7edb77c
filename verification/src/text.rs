//! Strings as sequences of characters: the few operations that the other
//! modules build on.

use vstd::prelude::*;
use vstd::string::*;

verus! {

/// Whether `char::is_alphanumeric` holds of a character: Unicode's
/// `Alphabetic` property or one of its numeric categories.
pub uninterp spec fn unicode_alphanumeric(c: char) -> bool;

/// Whether `char::is_whitespace` holds of a character: Unicode's `White_Space`
/// property.
pub uninterp spec fn unicode_white_space(c: char) -> bool;

/// `char::is_alphanumeric`. The result is a function of the character alone;
/// which characters it holds of is left to the Unicode tables.
pub assume_specification[ char::is_alphanumeric ](c: char) -> (yes: bool)
    ensures
        yes == unicode_alphanumeric(c),
;

/// `char::is_whitespace`. The result is a function of the character alone;
/// which characters it holds of is left to the Unicode tables.
pub assume_specification[ char::is_whitespace ](c: char) -> (yes: bool)
    ensures
        yes == unicode_white_space(c),
;

/// `String::push` appends the given character to the end of the string.
pub assume_specification[ String::push ](s: &mut String, c: char)
    ensures
        final(s)@ == old(s)@.push(c),
;

/// White space: on ASCII the blank, the tab, the line feed, the vertical tab,
/// the form feed and the carriage return; elsewhere as Unicode has it.
pub open spec fn is_white_space(c: char) -> bool {
    ||| c == ' '
    ||| '\t' <= c <= '\r'
    ||| c > '\u{7f}' && unicode_white_space(c)
}

/// Is `c` white space?
pub fn white_space(c: char) -> (yes: bool)
    ensures
        yes == is_white_space(c),
{
    c == ' ' || ('\t' <= c && c <= '\r') || (c > '\u{7f}' && c.is_whitespace())
}

/// `s` without its leading white space.
pub open spec fn trimmed_start(s: Seq<char>) -> Seq<char>
    decreases s.len(),
{
    if s.len() > 0 && is_white_space(s[0]) {
        trimmed_start(s.drop_first())
    } else {
        s
    }
}

/// `s` without its trailing white space.
pub open spec fn trimmed_end(s: Seq<char>) -> Seq<char>
    decreases s.len(),
{
    if s.len() > 0 && is_white_space(s.last()) {
        trimmed_end(s.drop_last())
    } else {
        s
    }
}

/// `s` without leading and trailing white space.
pub open spec fn trimmed(s: Seq<char>) -> Seq<char> {
    trimmed_end(trimmed_start(s))
}

/// The characters of `s`.
pub fn chars_of(s: &str) -> (chars: Vec<char>)
    ensures
        chars@ == s@,
{
    let mut chars: Vec<char> = Vec::new();
    for c in it: s.chars()
        invariant
            chars@ == s@.take(it.index()),
            it.seq() == s@,
    {
        chars.push(c);
        assert(s@.take(it.index() + 1) =~= s@.take(it.index()).push(c));
    }
    assert(s@.take(s@.len() as int) =~= s@);
    chars
}

/// `s` without leading and trailing white space.
pub fn trim(s: &str) -> (res: &str)
    ensures
        res@ == trimmed(s@),
{
    let chars = chars_of(s);
    let mut from: usize = 0;
    let mut to: usize = chars.len();
    assert(s@.subrange(0, to as int) =~= s@);
    while from < to && white_space(chars[from])
        invariant
            chars@ == s@,
            from <= to == s@.len(),
            trimmed_start(s@) == trimmed_start(s@.subrange(from as int, to as int)),
        decreases to - from,
    {
        assert(s@.subrange(from as int, to as int).drop_first() =~= s@.subrange(
            from + 1,
            to as int,
        ));
        from += 1;
    }
    assert(trimmed_start(s@) == s@.subrange(from as int, to as int));
    while from < to && white_space(chars[to - 1])
        invariant
            chars@ == s@,
            from <= to <= s@.len(),
            trimmed(s@) == trimmed_end(s@.subrange(from as int, to as int)),
        decreases to,
    {
        assert(s@.subrange(from as int, to as int).drop_last() =~= s@.subrange(
            from as int,
            to - 1,
        ));
        to -= 1;
    }
    s.substring_char(from, to)
}

/// Strings as characters.
pub open spec fn string_views(parts: Seq<String>) -> Seq<Seq<char>> {
    parts.map_values(|part: String| part@)
}

/// The parts in their order, with `sep` between each two.
pub open spec fn joined(parts: Seq<Seq<char>>, sep: Seq<char>) -> Seq<char>
    decreases parts.len(),
{
    if parts.len() == 0 {
        Seq::empty()
    } else if parts.len() == 1 {
        parts[0]
    } else {
        joined(parts.drop_last(), sep) + sep + parts.last()
    }
}

/// The parts in their order, with `sep` between each two.
pub fn join(parts: &Vec<String>, sep: &str) -> (res: String)
    ensures
        res@ == joined(string_views(parts@), sep@),
{
    let mut res = String::new();
    let mut i: usize = 0;
    let ghost views = string_views(parts@);
    assert(views.take(0) =~= Seq::empty());
    while i < parts.len()
        invariant
            i <= parts@.len(),
            views == string_views(parts@),
            res@ == joined(views.take(i as int), sep@),
        decreases parts@.len() - i,
    {
        assert(views.take(i + 1).drop_last() =~= views.take(i as int));
        if i > 0 {
            res.append(sep);
        }
        res.append(&parts[i]);
        assert(res@ =~= joined(views.take(i + 1), sep@));
        i += 1;
    }
    assert(views.take(i as int) =~= views);
    res
}

/// Which characters are white space, by their codes: 32, those from 9 to 13, and
/// beyond ASCII those that Unicode has for it.
pub proof fn law_white_space(c: char)
    ensures
        (c as int) < 128 ==> (is_white_space(c) <==> c as int == 32 || 9 <= c as int <= 13),
        (c as int) >= 128 ==> (is_white_space(c) <==> unicode_white_space(c)),
{
}

proof fn lemma_trimmed_start(before: Seq<char>, rest: Seq<char>)
    requires
        forall|i: int| 0 <= i < before.len() ==> is_white_space(#[trigger] before[i]),
        rest.len() > 0 ==> !is_white_space(rest.first()),
    ensures
        trimmed_start(before + rest) == rest,
    decreases before.len(),
{
    if before.len() == 0 {
        assert(before + rest =~= rest);
    } else {
        assert(is_white_space(before[0]));
        assert((before + rest).drop_first() =~= before.drop_first() + rest);
        assert forall|i: int| 0 <= i < before.drop_first().len() implies is_white_space(
            #[trigger] before.drop_first()[i],
        ) by {
            assert(is_white_space(before[i + 1]));
        }
        lemma_trimmed_start(before.drop_first(), rest);
    }
}

proof fn lemma_trimmed_end(rest: Seq<char>, after: Seq<char>)
    requires
        forall|i: int| 0 <= i < after.len() ==> is_white_space(#[trigger] after[i]),
        rest.len() > 0 ==> !is_white_space(rest.last()),
    ensures
        trimmed_end(rest + after) == rest,
    decreases after.len(),
{
    if after.len() == 0 {
        assert(rest + after =~= rest);
    } else {
        assert(is_white_space(after.last()));
        assert((rest + after).drop_last() =~= rest + after.drop_last());
        assert forall|i: int| 0 <= i < after.drop_last().len() implies is_white_space(
            #[trigger] after.drop_last()[i],
        ) by {
            assert(is_white_space(after[i]));
        }
        lemma_trimmed_end(rest, after.drop_last());
    }
}

/// Trimming takes away all the white space at both ends and nothing else: not
/// what is inside `core`, which begins and ends with something other.
pub proof fn law_trimmed(before: Seq<char>, core: Seq<char>, after: Seq<char>)
    requires
        forall|i: int| 0 <= i < before.len() ==> is_white_space(#[trigger] before[i]),
        forall|i: int| 0 <= i < after.len() ==> is_white_space(#[trigger] after[i]),
        core.len() > 0 ==> !is_white_space(core.first()) && !is_white_space(core.last()),
    ensures
        trimmed(before + core + after) == core,
{
    if core.len() == 0 {
        let all = before + after;
        assert(before + core + after =~= all + Seq::<char>::empty());
        assert forall|i: int| 0 <= i < all.len() implies is_white_space(#[trigger] all[i]) by {
            if i < before.len() {
                assert(all[i] == before[i]);
            } else {
                assert(all[i] == after[i - before.len()]);
            }
        }
        lemma_trimmed_start(all, Seq::empty());
        assert(trimmed(before + core + after) =~= core);
    } else {
        let rest = core + after;
        assert(before + core + after =~= before + rest);
        assert(rest.first() == core.first());
        lemma_trimmed_start(before, rest);
        lemma_trimmed_end(core, after);
    }
}

/// A separator stands between every two parts and nowhere else: one part is
/// joined to itself, and two lists joined one after the other have a separator
/// between them.
pub proof fn law_joined(a: Seq<Seq<char>>, b: Seq<Seq<char>>, part: Seq<char>, sep: Seq<char>)
    ensures
        joined(Seq::empty(), sep) == Seq::<char>::empty(),
        joined(seq![part], sep) == part,
        a.len() > 0 && b.len() > 0 ==> joined(a + b, sep) == joined(a, sep) + sep + joined(b, sep),
    decreases b.len(),
{
    if a.len() > 0 && b.len() > 0 {
        let front = b.drop_last();
        assert((a + b).drop_last() =~= a + front);
        if b.len() == 1 {
            assert(a + front =~= a);
        } else {
            law_joined(a, front, part, sep);
            assert(joined(a + b, sep) =~= joined(a, sep) + sep + (joined(front, sep) + sep
                + b.last()));
        }
    }
}

/// Joined parts are all there, each whole: part `k` of them is what stands at
/// some place in the text.
pub proof fn law_joined_holds_the_parts(parts: Seq<Seq<char>>, sep: Seq<char>, k: int) -> (at: int)
    requires
        0 <= k < parts.len(),
    ensures
        0 <= at <= at + parts[k].len() <= joined(parts, sep).len(),
        joined(parts, sep).subrange(at, at + parts[k].len()) == parts[k],
    decreases parts.len(),
{
    let text = joined(parts, sep);
    if parts.len() == 1 {
        assert(text.subrange(0, text.len() as int) =~= parts[k]);
        0
    } else if k == parts.len() - 1 {
        let at = text.len() - parts[k].len();
        assert(text.subrange(at, text.len() as int) =~= parts[k]);
        at
    } else {
        let front = joined(parts.drop_last(), sep);
        let at = law_joined_holds_the_parts(parts.drop_last(), sep, k);
        assert(text.subrange(at, at + parts[k].len()) =~= front.subrange(at, at + parts[k].len()));
        at
    }
}

/// The characters of the strings in a list, one for one.
pub proof fn law_string_views(parts: Seq<String>)
    ensures
        string_views(parts).len() == parts.len(),
        forall|i: int| 0 <= i < parts.len() ==> #[trigger] string_views(parts)[i] == parts[i]@,
{
}

} // verus!
