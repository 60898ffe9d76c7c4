//! Text as sequences of characters: white space, lines, words, fields.

use vstd::prelude::*;

verus! {

/// The Unicode `White_Space` property.
pub open spec fn white_space(c: char) -> bool {
    let n = c as u32;
    ||| 0x9 <= n <= 0xd
    ||| n == 0x20
    ||| n == 0x85
    ||| n == 0xa0
    ||| n == 0x1680
    ||| 0x2000 <= n <= 0x200a
    ||| n == 0x2028
    ||| n == 0x2029
    ||| n == 0x202f
    ||| n == 0x205f
    ||| n == 0x3000
}

/// Whether no character of `s` is white space.
pub open spec fn solid(s: Seq<char>) -> bool {
    forall|i: int| 0 <= i < s.len() ==> !white_space(#[trigger] s[i])
}

/// How many characters of `s` come before the first `c`; all of them where `c` does not occur.
pub open spec fn until(s: Seq<char>, c: char) -> nat
    decreases s.len(),
{
    if s.len() == 0 || s[0] == c {
        0
    } else {
        1 + until(s.drop_first(), c)
    }
}

/// `s` without the white space in front.
pub open spec fn trim_start(s: Seq<char>) -> Seq<char>
    decreases s.len(),
{
    if s.len() > 0 && white_space(s[0]) {
        trim_start(s.drop_first())
    } else {
        s
    }
}

/// `s` without the white space at the end.
pub open spec fn trim_end(s: Seq<char>) -> Seq<char>
    decreases s.len(),
{
    if s.len() > 0 && white_space(s.last()) {
        trim_end(s.drop_last())
    } else {
        s
    }
}

/// `s` without the white space at either end.
pub open spec fn trim(s: Seq<char>) -> Seq<char> {
    trim_end(trim_start(s))
}

/// How many characters of `s` come before the first white space.
pub open spec fn word_len(s: Seq<char>) -> nat
    decreases s.len(),
{
    if s.len() == 0 || white_space(s[0]) {
        0
    } else {
        1 + word_len(s.drop_first())
    }
}

/// The first run of characters other than white space, if there is one.
pub open spec fn first_word(s: Seq<char>) -> Option<Seq<char>> {
    let t = trim_start(s);
    if t.len() == 0 {
        None
    } else {
        Some(t.take(word_len(t) as int))
    }
}

/// A line that ended in a line feed, without the carriage return that may come before it.
pub open spec fn chomp(line: Seq<char>) -> Seq<char> {
    if line.len() > 0 && line.last() == '\r' {
        line.drop_last()
    } else {
        line
    }
}

/// The lines of `s`. A line ends in a line feed, or in a carriage return and a line feed; the
/// last one may lack its ending.
pub open spec fn lines(s: Seq<char>) -> Seq<Seq<char>>
    decreases s.len(),
{
    if s.len() == 0 {
        seq![]
    } else {
        let n = until(s, '\n') as int;
        if 0 <= n < s.len() {
            seq![chomp(s.take(n))] + lines(s.skip(n + 1))
        } else {
            seq![s]
        }
    }
}

/// What `sep` separates in `s`: one field more than there are separators.
pub open spec fn fields(s: Seq<char>, sep: char) -> Seq<Seq<char>>
    decreases s.len(),
{
    let n = until(s, sep) as int;
    if 0 <= n < s.len() {
        seq![s.take(n)] + fields(s.skip(n + 1), sep)
    } else {
        seq![s]
    }
}

/// Whether `needle` occurs in `s`.
pub open spec fn occurs(s: Seq<char>, needle: Seq<char>) -> bool {
    exists|i: int| #[trigger] occurs_at(s, needle, i)
}

/// Whether `needle` occurs in `s` from position `i` on.
pub open spec fn occurs_at(s: Seq<char>, needle: Seq<char>, i: int) -> bool {
    0 <= i && i + needle.len() <= s.len() && s.subrange(i, i + needle.len()) == needle
}

/// The parts one after the other, with `sep` between them.
pub open spec fn joined(parts: Seq<Seq<char>>, sep: Seq<char>) -> Seq<char>
    decreases parts.len(),
{
    if parts.len() == 0 {
        seq![]
    } else if parts.len() == 1 {
        parts[0]
    } else {
        joined(parts.drop_last(), sep) + sep + parts.last()
    }
}

/// What the strings of a sequence hold.
pub open spec fn texts(strings: Seq<String>) -> Seq<Seq<char>> {
    strings.map_values(|s: String| s@)
}

pub proof fn lemma_until(s: Seq<char>, c: char, n: int)
    requires
        0 <= n <= s.len(),
        forall|i: int| 0 <= i < n ==> s[i] != c,
        n < s.len() ==> s[n] == c,
    ensures
        until(s, c) == n,
    decreases s.len(),
{
    if n > 0 {
        assert forall|i: int| 0 <= i < n - 1 implies s.drop_first()[i] != c by {
            assert(s[i + 1] != c);
        }
        lemma_until(s.drop_first(), c, n - 1);
    }
}

pub proof fn lemma_until_bounds(s: Seq<char>, c: char)
    ensures
        until(s, c) <= s.len(),
        forall|i: int| 0 <= i < until(s, c) ==> s[i] != c,
        until(s, c) < s.len() ==> s[until(s, c) as int] == c,
    decreases s.len(),
{
    if s.len() > 0 && s[0] != c {
        lemma_until_bounds(s.drop_first(), c);
        assert forall|i: int| 0 <= i < until(s, c) implies s[i] != c by {
            if i > 0 {
                assert(s.drop_first()[i - 1] != c);
            }
        }
    }
}

pub proof fn lemma_trim_start(s: Seq<char>, n: int)
    requires
        0 <= n <= s.len(),
        forall|i: int| 0 <= i < n ==> white_space(#[trigger] s[i]),
        n < s.len() ==> !white_space(s[n]),
    ensures
        trim_start(s) == s.skip(n),
    decreases s.len(),
{
    if n > 0 {
        assert(white_space(s[0]));
        assert forall|i: int| 0 <= i < n - 1 implies white_space(#[trigger] s.drop_first()[i]) by {
            assert(white_space(s[i + 1]));
        }
        lemma_trim_start(s.drop_first(), n - 1);
        assert(s.drop_first().skip(n - 1) =~= s.skip(n));
    } else {
        assert(s.skip(0) =~= s);
    }
}

pub proof fn lemma_trim_end(s: Seq<char>, n: int)
    requires
        0 <= n <= s.len(),
        forall|i: int| n <= i < s.len() ==> white_space(#[trigger] s[i]),
        n > 0 ==> !white_space(s[n - 1]),
    ensures
        trim_end(s) == s.take(n),
    decreases s.len(),
{
    if n < s.len() {
        assert(white_space(s[s.len() - 1]));
        assert forall|i: int| n <= i < s.drop_last().len() implies white_space(
            #[trigger] s.drop_last()[i],
        ) by {
            assert(white_space(s[i]));
        }
        lemma_trim_end(s.drop_last(), n);
        assert(s.drop_last().take(n) =~= s.take(n));
    } else {
        assert(s.take(n) =~= s);
    }
}

pub proof fn lemma_word_len(s: Seq<char>, n: int)
    requires
        0 <= n <= s.len(),
        forall|i: int| 0 <= i < n ==> !white_space(#[trigger] s[i]),
        n < s.len() ==> white_space(s[n]),
    ensures
        word_len(s) == n,
    decreases s.len(),
{
    if n > 0 {
        assert(!white_space(s[0]));
        assert forall|i: int| 0 <= i < n - 1 implies !white_space(#[trigger] s.drop_first()[i]) by {
            assert(!white_space(s[i + 1]));
        }
        lemma_word_len(s.drop_first(), n - 1);
    }
}

/// Whether `s` is a single line: whether it holds no line feed.
pub open spec fn one_line(s: Seq<char>) -> bool {
    forall|i: int| 0 <= i < s.len() ==> #[trigger] s[i] != '\n'
}

/// Taking the first line off a text.
pub proof fn lemma_lines_step(line: Seq<char>, rest: Seq<char>)
    requires
        one_line(line),
    ensures
        lines(line + "\n"@ + rest) == seq![chomp(line)] + lines(rest),
{
    reveal_strlit("\n");
    let s = line + "\n"@ + rest;
    let n = line.len() as int;
    assert(s[n] == '\n');
    lemma_until(s, '\n', n);
    assert(s.take(n) =~= line);
    assert(s.skip(n + 1) =~= rest);
}

/// Taking the first field off a text.
pub proof fn lemma_fields_step(field: Seq<char>, rest: Seq<char>, sep: char)
    requires
        forall|i: int| 0 <= i < field.len() ==> field[i] != sep,
    ensures
        fields(field + seq![sep] + rest, sep) == seq![field] + fields(rest, sep),
{
    let s = field + seq![sep] + rest;
    let n = field.len() as int;
    assert(s[n] == sep);
    lemma_until(s, sep, n);
    assert(s.take(n) =~= field);
    assert(s.skip(n + 1) =~= rest);
}

/// Whether `s` is all white space.
pub open spec fn blank(s: Seq<char>) -> bool {
    forall|i: int| 0 <= i < s.len() ==> white_space(#[trigger] s[i])
}

/// Whether `s` neither starts nor ends in white space.
pub open spec fn tidy(s: Seq<char>) -> bool {
    s.len() > 0 ==> !white_space(s[0]) && !white_space(s.last())
}

/// Trimming takes away what white space was put around a text.
pub proof fn lemma_trim_around(before: Seq<char>, s: Seq<char>, after: Seq<char>)
    requires
        blank(before),
        tidy(s),
        blank(after),
    ensures
        trim(before + s + after) == s,
{
    let all = before + s + after;
    if s.len() == 0 {
        assert forall|i: int| 0 <= i < all.len() implies white_space(#[trigger] all[i]) by {
            if i < before.len() {
                assert(all[i] == before[i]);
            } else {
                assert(all[i] == after[i - before.len()]);
            }
        }
        lemma_trim_start(all, all.len() as int);
        assert(all.skip(all.len() as int) =~= s);
    } else {
        let n = before.len() as int;
        assert forall|i: int| 0 <= i < n implies white_space(#[trigger] all[i]) by {
            assert(all[i] == before[i]);
        }
        assert(all[n] == s[0]);
        lemma_trim_start(all, n);
        let rest = s + after;
        assert(all.skip(n) =~= rest);
        assert forall|i: int| s.len() <= i < rest.len() implies white_space(#[trigger] rest[i]) by {
            assert(rest[i] == after[i - s.len()]);
        }
        assert(rest[s.len() - 1] == s.last());
        lemma_trim_end(rest, s.len() as int);
        assert(rest.take(s.len() as int) =~= s);
    }
}

/// Putting one more part behind the others.
pub proof fn lemma_joined_push(parts: Seq<Seq<char>>, part: Seq<char>, sep: Seq<char>)
    requires
        parts.len() > 0,
    ensures
        joined(parts.push(part), sep) == joined(parts, sep) + sep + part,
{
    assert(parts.push(part).drop_last() =~= parts);
}

/// Putting parts together from the front.
pub proof fn lemma_joined_front(parts: Seq<Seq<char>>, sep: Seq<char>)
    requires
        parts.len() > 1,
    ensures
        joined(parts, sep) == parts[0] + sep + joined(parts.drop_first(), sep),
    decreases parts.len(),
{
    if parts.len() == 2 {
        assert(parts.drop_last() =~= seq![parts[0]]);
        assert(parts.drop_first() =~= seq![parts[1]]);
        assert(joined(parts.drop_last(), sep) == parts[0]);
    } else {
        lemma_joined_front(parts.drop_last(), sep);
        assert(parts.drop_last().drop_first() =~= parts.drop_first().drop_last());
        assert(joined(parts, sep) =~= parts[0] + sep + joined(parts.drop_first(), sep));
    }
}

/// The lines of single lines put together are those lines.
pub proof fn lemma_lines_of_joined(parts: Seq<Seq<char>>)
    requires
        parts.len() > 0,
        forall|i: int| 0 <= i < parts.len() ==> one_line(#[trigger] parts[i]),
        parts.last().len() > 0,
    ensures
        lines(joined(parts, "\n"@)) == parts.drop_last().map_values(|l: Seq<char>| chomp(l)).push(
            parts.last(),
        ),
    decreases parts.len(),
{
    if parts.len() == 1 {
        let s = parts[0];
        assert(one_line(s));
        lemma_until(s, '\n', s.len() as int);
        assert(parts.drop_last().map_values(|l: Seq<char>| chomp(l)).push(s) =~= seq![s]);
    } else {
        let rest = parts.drop_first();
        assert forall|i: int| 0 <= i < rest.len() implies one_line(#[trigger] rest[i]) by {
            assert(one_line(parts[i + 1]));
        }
        lemma_lines_of_joined(rest);
        lemma_joined_front(parts, "\n"@);
        assert(one_line(parts[0]));
        lemma_lines_step(parts[0], joined(rest, "\n"@));
        assert(seq![chomp(parts[0])] + rest.drop_last().map_values(|l: Seq<char>| chomp(l)).push(
            rest.last(),
        ) =~= parts.drop_last().map_values(|l: Seq<char>| chomp(l)).push(parts.last()));
    }
}

/// What stands between solid characters stays when the ends are trimmed.
pub proof fn lemma_trim_keeps(s: Seq<char>, n: int)
    requires
        0 < n <= s.len(),
        !white_space(s[0]),
        !white_space(s[n - 1]),
    ensures
        trim_start(s) == s,
        n <= trim(s).len() <= s.len(),
        trim(s) == s.take(trim(s).len() as int),
{
    lemma_trim_start(s, 0);
    assert(s.skip(0) =~= s);
    lemma_trim_end_keeps(s, n);
}

proof fn lemma_trim_end_keeps(s: Seq<char>, n: int)
    requires
        0 < n <= s.len(),
        !white_space(s[n - 1]),
    ensures
        n <= trim_end(s).len() <= s.len(),
        trim_end(s) == s.take(trim_end(s).len() as int),
    decreases s.len(),
{
    if white_space(s.last()) {
        lemma_trim_end_keeps(s.drop_last(), n);
        assert(s.drop_last().take(trim_end(s).len() as int) =~= s.take(trim_end(s).len() as int));
    } else {
        assert(s.take(s.len() as int) =~= s);
    }
}

/// Tells whether a character has the Unicode `White_Space` property.
pub fn is_white_space(c: char) -> (r: bool)
    ensures
        r == white_space(c),
{
    let n: u32 = c as u32;
    (0x9 <= n && n <= 0xd) || n == 0x20 || n == 0x85 || n == 0xa0 || n == 0x1680 || (0x2000 <= n
        && n <= 0x200a) || n == 0x2028 || n == 0x2029 || n == 0x202f || n == 0x205f || n == 0x3000
}

/// The characters of a string.
pub fn chars(s: &str) -> (r: Vec<char>)
    ensures
        r@ == s@,
{
    let mut r: Vec<char> = Vec::new();
    for c in it: s.chars()
        invariant
            r@ == s@.take(it.index()),
            it.seq() == s@,
    {
        r.push(c);
        assert(s@.take(it.index() as int).push(c) =~= s@.take(it.index() + 1));
    }
    assert(s@.take(s@.len() as int) =~= s@);
    r
}

/// Drops the white space in front.
pub fn without_leading_space(s: &str) -> (r: &str)
    ensures
        r@ == trim_start(s@),
{
    let cs = chars(s);
    let mut n: usize = 0;
    while n < cs.len() && is_white_space(cs[n])
        invariant
            cs@ == s@,
            0 <= n <= cs.len(),
            forall|i: int| 0 <= i < n ==> white_space(#[trigger] s@[i]),
        ensures
            n < cs.len() ==> !white_space(s@[n as int]),
        decreases cs.len() - n,
    {
        n += 1;
    }
    proof {
        lemma_trim_start(s@, n as int);
    }
    s.substring_char(n, cs.len())
}

/// Drops the white space at either end.
pub fn trimmed(s: &str) -> (r: &str)
    ensures
        r@ == trim(s@),
{
    let t = without_leading_space(s);
    let cs = chars(t);
    let mut n: usize = cs.len();
    while n > 0 && is_white_space(cs[n - 1])
        invariant
            cs@ == t@,
            0 <= n <= cs.len(),
            forall|i: int| n <= i < cs.len() ==> white_space(#[trigger] t@[i]),
        ensures
            n > 0 ==> !white_space(t@[n - 1]),
        decreases n,
    {
        n -= 1;
    }
    proof {
        lemma_trim_end(t@, n as int);
    }
    t.substring_char(0, n)
}

/// The first run of characters other than white space, if there is one.
pub fn first_word_of(s: &str) -> (r: Option<String>)
    ensures
        match r {
            Some(word) => first_word(s@) == Some(word@),
            None => first_word(s@) is None,
        },
{
    let t = without_leading_space(s);
    let cs = chars(t);
    if cs.len() == 0 {
        return None;
    }
    let mut n: usize = 0;
    while n < cs.len() && !is_white_space(cs[n])
        invariant
            cs@ == t@,
            0 <= n <= cs.len(),
            forall|i: int| 0 <= i < n ==> !white_space(#[trigger] t@[i]),
        ensures
            n < cs.len() ==> white_space(t@[n as int]),
        decreases cs.len() - n,
    {
        n += 1;
    }
    proof {
        lemma_word_len(t@, n as int);
    }
    Some(t.substring_char(0, n).to_owned())
}

/// Whether `needle` occurs in `cs` from position `at` on.
fn matches_at(cs: &Vec<char>, needle: &Vec<char>, at: usize) -> (r: bool)
    requires
        at <= cs.len(),
    ensures
        r == occurs_at(cs@, needle@, at as int),
{
    if needle.len() > cs.len() - at {
        return false;
    }
    let ghost window = cs@.subrange(at as int, at + needle@.len());
    let mut i: usize = 0;
    while i < needle.len()
        invariant
            0 <= i <= needle.len(),
            at + needle.len() <= cs.len(),
            window == cs@.subrange(at as int, at + needle@.len()),
            forall|j: int| 0 <= j < i ==> window[j] == needle@[j],
        decreases needle.len() - i,
    {
        if cs[at + i] != needle[i] {
            assert(window[i as int] != needle@[i as int]);
            return false;
        }
        i += 1;
    }
    assert(window =~= needle@);
    true
}

/// Whether `s` starts with `prefix`.
pub fn has_prefix(s: &str, prefix: &str) -> (r: bool)
    ensures
        r == prefix@.is_prefix_of(s@),
{
    let cs = chars(s);
    let ps = chars(prefix);
    matches_at(&cs, &ps, 0)
}

/// Whether `s` ends in `suffix`.
pub fn has_suffix(s: &str, suffix: &str) -> (r: bool)
    ensures
        r == suffix@.is_suffix_of(s@),
{
    let cs = chars(s);
    let ps = chars(suffix);
    if ps.len() > cs.len() {
        return false;
    }
    matches_at(&cs, &ps, cs.len() - ps.len())
}

/// What follows `prefix` in `s`, if `s` starts with it.
pub fn after_prefix<'a>(s: &'a str, prefix: &str) -> (r: Option<&'a str>)
    ensures
        match r {
            Some(rest) => prefix@.is_prefix_of(s@) && rest@ == s@.skip(prefix@.len() as int),
            None => !prefix@.is_prefix_of(s@),
        },
{
    if has_prefix(s, prefix) {
        let n: usize = prefix.unicode_len();
        let rest = s.substring_char(n, s.unicode_len());
        assert(s@.subrange(n as int, s@.len() as int) =~= s@.skip(n as int));
        Some(rest)
    } else {
        None
    }
}

/// Whether `needle` occurs in `s`.
pub fn contains(s: &str, needle: &str) -> (r: bool)
    ensures
        r == occurs(s@, needle@),
{
    let cs = chars(s);
    let ns = chars(needle);
    let mut at: usize = 0;
    while at < cs.len()
        invariant
            cs@ == s@,
            ns@ == needle@,
            0 <= at <= cs.len(),
            forall|i: int| 0 <= i < at ==> !#[trigger] occurs_at(s@, needle@, i),
        decreases cs.len() - at,
    {
        if matches_at(&cs, &ns, at) {
            return true;
        }
        at += 1;
    }
    matches_at(&cs, &ns, at)
}

/// Whether the two strings hold the same characters.
pub fn same(a: &str, b: &str) -> (r: bool)
    ensures
        r == (a@ == b@),
{
    let xs = chars(a);
    let ys = chars(b);
    if xs.len() != ys.len() {
        return false;
    }
    let r = matches_at(&xs, &ys, 0);
    assert(xs@.subrange(0, xs@.len() as int) =~= xs@);
    r
}

/// How many characters come before the next `c`, from position `from` on.
fn distance_to(cs: &Vec<char>, from: usize, c: char) -> (n: usize)
    requires
        from <= cs.len(),
    ensures
        n == until(cs@.skip(from as int), c),
        from + n <= cs.len(),
{
    let ghost rest = cs@.skip(from as int);
    let mut n: usize = 0;
    while n < cs.len() - from && cs[from + n] != c
        invariant
            from <= cs.len(),
            rest == cs@.skip(from as int),
            n <= cs.len() - from,
            forall|i: int| 0 <= i < n ==> rest[i] != c,
        ensures
            n < rest.len() ==> rest[n as int] == c,
        decreases cs.len() - from - n,
    {
        n += 1;
    }
    proof {
        lemma_until(rest, c, n as int);
    }
    n
}

/// The lines of `s`, without their endings.
pub fn lines_of(s: &str) -> (r: Vec<String>)
    ensures
        texts(r@) == lines(s@),
{
    let cs = chars(s);
    let mut r: Vec<String> = Vec::new();
    let mut from: usize = 0;
    assert(cs@.skip(0) =~= cs@);
    assert(texts(r@) + lines(s@) =~= lines(s@));
    while from < cs.len()
        invariant
            cs@ == s@,
            from <= cs.len(),
            texts(r@) + lines(s@.skip(from as int)) == lines(s@),
        decreases cs.len() - from,
    {
        let ghost rest = s@.skip(from as int);
        let ghost before = texts(r@);
        let n: usize = distance_to(&cs, from, '\n');
        if n < cs.len() - from {
            let end: usize = if n > 0 && cs[from + n - 1] == '\r' { from + n - 1 } else { from + n };
            assert(s@.subrange(from as int, end as int) =~= chomp(rest.take(n as int)));
            r.push(s.substring_char(from, end).to_owned());
            from = from + n + 1;
            assert(rest.skip(n + 1) =~= s@.skip(from as int));
        } else {
            assert(s@.subrange(from as int, s@.len() as int) =~= rest);
            r.push(s.substring_char(from, cs.len()).to_owned());
            from = cs.len();
        }
        assert(lines(s@.skip(s@.len() as int)) =~= seq![]);
        assert(texts(r@) =~= before.push(r@.last()@));
        assert(texts(r@) + lines(s@.skip(from as int)) =~= before + lines(rest));
    }
    assert(lines(s@.skip(from as int)) =~= seq![]);
    assert(texts(r@) + lines(s@.skip(from as int)) =~= texts(r@));
    r
}

/// What `sep` separates in `s`.
pub fn fields_of(s: &str, sep: char) -> (r: Vec<String>)
    ensures
        texts(r@) == fields(s@, sep),
{
    let cs = chars(s);
    let mut r: Vec<String> = Vec::new();
    let mut from: usize = 0;
    assert(cs@.skip(0) =~= cs@);
    assert(texts(r@) + fields(s@, sep) =~= fields(s@, sep));
    loop
        invariant
            cs@ == s@,
            from <= cs.len(),
            texts(r@) + fields(s@.skip(from as int), sep) == fields(s@, sep),
        decreases cs.len() - from,
    {
        let ghost rest = s@.skip(from as int);
        let ghost before = texts(r@);
        let n: usize = distance_to(&cs, from, sep);
        if n < cs.len() - from {
            assert(s@.subrange(from as int, from + n) =~= rest.take(n as int));
            r.push(s.substring_char(from, from + n).to_owned());
            from = from + n + 1;
            assert(rest.skip(n + 1) =~= s@.skip(from as int));
            assert(texts(r@) =~= before.push(r@.last()@));
            assert(texts(r@) + fields(s@.skip(from as int), sep) =~= before + fields(rest, sep));
        } else {
            assert(s@.subrange(from as int, s@.len() as int) =~= rest);
            r.push(s.substring_char(from, cs.len()).to_owned());
            assert(texts(r@) =~= before + fields(rest, sep));
            return r;
        }
    }
}

/// The parts one after the other, with `sep` between them.
pub fn join(parts: &[String], sep: &str) -> (r: String)
    ensures
        r@ == joined(texts(parts@), sep@),
{
    let mut r = String::new();
    let mut i: usize = 0;
    assert(texts(parts@).take(0) =~= seq![]);
    while i < parts.len()
        invariant
            i <= parts.len(),
            r@ == joined(texts(parts@).take(i as int), sep@),
        decreases parts.len() - i,
    {
        let ghost some = texts(parts@).take(i + 1);
        assert(some.drop_last() =~= texts(parts@).take(i as int));
        if i > 0 {
            r.append(sep);
        }
        r.append(parts[i].as_str());
        i += 1;
        assert(r@ =~= joined(some, sep@));
    }
    assert(texts(parts@).take(parts@.len() as int) =~= texts(parts@));
    r
}

/// Copies strings.
pub fn owned_copies(parts: &[&str]) -> (r: Vec<String>)
    ensures
        texts(r@) == parts@.map_values(|s: &str| s@),
{
    let mut r: Vec<String> = Vec::new();
    let mut i: usize = 0;
    while i < parts.len()
        invariant
            i <= parts.len(),
            r@.len() == i,
            forall|j: int| 0 <= j < i ==> #[trigger] r@[j]@ == parts@[j]@,
        decreases parts.len() - i,
    {
        r.push(parts[i].to_owned());
        i += 1;
    }
    assert(texts(r@) =~= parts@.map_values(|s: &str| s@));
    r
}

} // verus!
