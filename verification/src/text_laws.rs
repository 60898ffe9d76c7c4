//! What the functions on text amount to, said of the characters themselves.

use vstd::prelude::*;

use crate::text;

verus! {

/// The texts of strings are those of each string, in their order.
pub proof fn law_texts(strings: Seq<String>)
    ensures
        text::texts(strings).len() == strings.len(),
        forall|i: int| 0 <= i < strings.len() ==> #[trigger] text::texts(strings)[i] == strings[i]@,
{
}

/// Trimming in front takes away white space, all of it, and nothing else.
pub proof fn law_trim_start(s: Seq<char>)
    ensures
        ({
            let t = text::trim_start(s);
            let n = s.len() - t.len();
            &&& 0 <= n
            &&& t == s.skip(n)
            &&& forall|i: int| 0 <= i < n ==> text::white_space(#[trigger] s[i])
            &&& t.len() > 0 ==> !text::white_space(t[0])
        }),
    decreases s.len(),
{
    if s.len() > 0 && text::white_space(s[0]) {
        law_trim_start(s.drop_first());
        let t = text::trim_start(s);
        let n = s.len() - t.len();
        assert(s.drop_first().skip(n - 1) =~= s.skip(n));
        assert forall|i: int| 0 <= i < n implies text::white_space(#[trigger] s[i]) by {
            if i > 0 {
                assert(text::white_space(s.drop_first()[i - 1]));
            }
        }
    } else {
        assert(s.skip(0) =~= s);
    }
}

proof fn lemma_trim_end(s: Seq<char>)
    ensures
        ({
            let t = text::trim_end(s);
            &&& t.len() <= s.len()
            &&& t == s.take(t.len() as int)
            &&& forall|i: int| t.len() <= i < s.len() ==> text::white_space(#[trigger] s[i])
            &&& t.len() > 0 ==> !text::white_space(t.last())
        }),
    decreases s.len(),
{
    if s.len() > 0 && text::white_space(s.last()) {
        lemma_trim_end(s.drop_last());
        let t = text::trim_end(s);
        assert(s.drop_last().take(t.len() as int) =~= s.take(t.len() as int));
        assert forall|i: int| t.len() <= i < s.len() implies text::white_space(#[trigger] s[i]) by {
            if i < s.len() - 1 {
                assert(text::white_space(s.drop_last()[i]));
            }
        }
    } else {
        assert(s.take(s.len() as int) =~= s);
    }
}

/// Trimming takes away white space at either end, all of it, and nothing else: a text that neither
/// starts nor ends in white space comes back from between white space.
pub proof fn law_trim(before: Seq<char>, s: Seq<char>, after: Seq<char>)
    requires
        forall|i: int| 0 <= i < before.len() ==> text::white_space(#[trigger] before[i]),
        forall|i: int| 0 <= i < after.len() ==> text::white_space(#[trigger] after[i]),
        s.len() > 0 ==> !text::white_space(s[0]) && !text::white_space(s.last()),
    ensures
        text::trim(before + s + after) == s,
{
    text::lemma_trim_around(before, s, after);
}

/// Every text is what trimming leaves of it, between white space.
pub proof fn law_trim_leaves(s: Seq<char>) -> (ends: (int, int))
    ensures
        0 <= ends.0 <= ends.1 <= s.len(),
        text::trim(s) == s.subrange(ends.0, ends.1),
        forall|i: int| 0 <= i < ends.0 ==> text::white_space(#[trigger] s[i]),
        forall|i: int| ends.1 <= i < s.len() ==> text::white_space(#[trigger] s[i]),
        ends.0 < ends.1 ==> !text::white_space(s[ends.0]) && !text::white_space(s[ends.1 - 1]),
{
    law_trim_start(s);
    let u = text::trim_start(s);
    lemma_trim_end(u);
    let t = text::trim(s);
    let a = s.len() - u.len();
    let b = a + t.len();
    assert(t =~= s.subrange(a, b));
    assert forall|i: int| b <= i < s.len() implies text::white_space(#[trigger] s[i]) by {
        assert(text::white_space(u[i - a]));
    }
    (a, b)
}

/// The first word of a text stands behind white space alone, holds none, and reaches to white space
/// or to the end.
pub proof fn law_first_word(s: Seq<char>, begin: int, end: int)
    requires
        0 <= begin < end <= s.len(),
        forall|i: int| 0 <= i < begin ==> text::white_space(#[trigger] s[i]),
        forall|i: int| begin <= i < end ==> !text::white_space(#[trigger] s[i]),
        end < s.len() ==> text::white_space(s[end]),
    ensures
        text::first_word(s) == Some(s.subrange(begin, end)),
{
    assert(!text::white_space(s[begin]));
    text::lemma_trim_start(s, begin);
    let t = s.skip(begin);
    let n = end - begin;
    assert forall|i: int| 0 <= i < n implies !text::white_space(#[trigger] t[i]) by {
        assert(!text::white_space(s[begin + i]));
    }
    text::lemma_word_len(t, n);
    assert(t.take(n) =~= s.subrange(begin, end));
}

/// Only a text of white space has no first word.
pub proof fn law_no_first_word(s: Seq<char>)
    ensures
        text::first_word(s) is None <==> forall|i: int|
            0 <= i < s.len() ==> text::white_space(#[trigger] s[i]),
{
    law_trim_start(s);
    let t = text::trim_start(s);
    if t.len() > 0 {
        assert(t[0] == s[s.len() - t.len()]);
    }
}

/// The lines of a text, from the first on: a line ends in a line feed, or in a carriage return and
/// a line feed, which do not belong to it, and the last one may end with the text.
pub proof fn law_lines(line: Seq<char>, rest: Seq<char>)
    requires
        !line.contains('\n'),
    ensures
        text::lines(line + seq!['\r', '\n'] + rest) == seq![line] + text::lines(rest),
        line.len() == 0 || line.last() != '\r' ==> text::lines(line + seq!['\n'] + rest) == seq![
            line,
        ] + text::lines(rest),
        line.len() > 0 ==> text::lines(line) == seq![line],
        text::lines(seq![]) == Seq::<Seq<char>>::empty(),
{
    reveal_strlit("\n");
    assert(seq!['\n'] =~= "\n"@);
    assert forall|i: int| 0 <= i < line.len() implies #[trigger] line[i] != '\n' by {
        assert(line.contains(line[i]));
    }
    text::lemma_lines_step(line, rest);
    let long = line.push('\r');
    assert(text::one_line(long));
    text::lemma_lines_step(long, rest);
    assert(line + seq!['\r', '\n'] + rest =~= long + "\n"@ + rest);
    assert(text::chomp(long) =~= line);
    text::lemma_until(line, '\n', line.len() as int);
}

/// No line holds a line feed.
pub proof fn law_lines_hold_no_feed(s: Seq<char>, i: int)
    requires
        0 <= i < text::lines(s).len(),
    ensures
        !text::lines(s)[i].contains('\n'),
    decreases s.len(),
{
    let n = text::until(s, '\n') as int;
    text::lemma_until_bounds(s, '\n');
    if n < s.len() {
        if i == 0 {
            assert forall|j: int| 0 <= j < text::lines(s)[0].len() implies text::lines(s)[0][j]
                != '\n' by {
                assert(text::lines(s)[0][j] == s[j]);
            }
        } else {
            law_lines_hold_no_feed(s.skip(n + 1), i - 1);
        }
    }
}

/// What a character separates holds it nowhere, and makes the text again with the character in
/// between.
pub proof fn law_fields(s: Seq<char>, sep: char)
    ensures
        text::fields(s, sep).len() > 0,
        forall|i: int|
            0 <= i < text::fields(s, sep).len() ==> !(#[trigger] text::fields(s, sep)[i]).contains(
                sep,
            ),
        text::joined(text::fields(s, sep), seq![sep]) == s,
    decreases s.len(),
{
    let n = text::until(s, sep) as int;
    text::lemma_until_bounds(s, sep);
    let all = text::fields(s, sep);
    if n < s.len() {
        let rest = s.skip(n + 1);
        law_fields(rest, sep);
        assert forall|i: int| 0 <= i < all.len() implies !(#[trigger] all[i]).contains(sep) by {
            if i == 0 {
                assert(all[0] == s.take(n));
            } else {
                assert(all[i] == text::fields(rest, sep)[i - 1]);
            }
        }
        text::lemma_joined_front(all, seq![sep]);
        assert(all.drop_first() =~= text::fields(rest, sep));
        assert(s.take(n) + seq![sep] + rest =~= s);
    } else {
        assert(all =~= seq![s]);
        assert(!s.contains(sep));
    }
}

/// Parts are put together one behind the other, with the separator before each but the first.
pub proof fn law_joined(parts: Seq<Seq<char>>, part: Seq<char>, sep: Seq<char>)
    ensures
        text::joined(seq![], sep) == Seq::<char>::empty(),
        text::joined(seq![part], sep) == part,
        parts.len() > 0 ==> text::joined(parts.push(part), sep) == text::joined(parts, sep) + sep
            + part,
{
    if parts.len() > 0 {
        text::lemma_joined_push(parts, part, sep);
    }
}

/// Parts that are put together are the parts one behind the other, each with the separator before
/// it, without the first separator.
pub proof fn law_joined_flat(parts: Seq<Seq<char>>, sep: Seq<char>, led: Seq<Seq<char>>)
    requires
        led.len() == parts.len(),
        forall|i: int| 0 <= i < parts.len() ==> #[trigger] led[i] == sep + parts[i],
    ensures
        parts.len() > 0 ==> led.flatten() == sep + text::joined(parts, sep),
        parts.len() == 0 ==> led.flatten() == Seq::<char>::empty() && text::joined(parts, sep)
            == Seq::<char>::empty(),
    decreases parts.len(),
{
    if parts.len() > 0 {
        let front = led.drop_last();
        law_joined_flat(parts.drop_last(), sep, front);
        front.lemma_flatten_push(led.last());
        assert(front.push(led.last()) =~= led);
        if parts.len() == 1 {
            assert(front.flatten() + led.last() =~= sep + parts[0]);
        } else {
            assert(sep + text::joined(parts.drop_last(), sep) + (sep + parts.last()) =~= sep + (
            text::joined(parts.drop_last(), sep) + sep + parts.last()));
        }
    }
}

/// A text occurs in another exactly if the other is made of it and what stands around it.
pub proof fn law_occurs(before: Seq<char>, needle: Seq<char>, after: Seq<char>)
    ensures
        text::occurs(before + needle + after, needle),
{
    let s = before + needle + after;
    let i = before.len() as int;
    assert(s.subrange(i, i + needle.len()) =~= needle);
    assert(text::occurs_at(s, needle, i));
}

/// What occurs in a text has the rest of the text around it.
pub proof fn law_occurs_only(s: Seq<char>, needle: Seq<char>) -> (around: (Seq<char>, Seq<char>))
    requires
        text::occurs(s, needle),
    ensures
        s == around.0 + needle + around.1,
{
    let i = choose|i: int| #[trigger] text::occurs_at(s, needle, i);
    let before = s.take(i);
    let after = s.skip(i + needle.len());
    assert forall|j: int| 0 <= j < needle.len() implies s[i + j] == needle[j] by {
        assert(s.subrange(i, i + needle.len())[j] == needle[j]);
    }
    assert(s =~= before + needle + after);
    (before, after)
}

} // verus!
