//! Text as sequences of characters: trimming, lines, splitting and comparing.

use vstd::prelude::*;
use vstd::string::*;

verus! {

/// The characters with the Unicode `White_Space` property.
pub open spec fn is_white_space(c: char) -> bool {
    ||| '\u{9}' <= c <= '\u{d}'
    ||| c == '\u{20}'
    ||| c == '\u{85}'
    ||| c == '\u{a0}'
    ||| c == '\u{1680}'
    ||| '\u{2000}' <= c <= '\u{200a}'
    ||| c == '\u{2028}'
    ||| c == '\u{2029}'
    ||| c == '\u{202f}'
    ||| c == '\u{205f}'
    ||| c == '\u{3000}'
}

/// `s` without its leading white space.
pub open spec fn trim_start(s: Seq<char>) -> Seq<char>
    decreases s.len(),
{
    if s.len() > 0 && is_white_space(s[0]) {
        trim_start(s.drop_first())
    } else {
        s
    }
}

/// `s` without its trailing white space.
pub open spec fn trim_end(s: Seq<char>) -> Seq<char>
    decreases s.len(),
{
    if s.len() > 0 && is_white_space(s.last()) {
        trim_end(s.drop_last())
    } else {
        s
    }
}

/// `s` without white space at either end.
pub open spec fn trimmed(s: Seq<char>) -> Seq<char> {
    trim_end(trim_start(s))
}

/// The position of the first `c` in `s`, or the length of `s` where there is none.
pub open spec fn first_index(s: Seq<char>, c: char) -> int
    decreases s.len(),
{
    if s.len() == 0 || s[0] == c {
        0
    } else {
        1 + first_index(s.drop_first(), c)
    }
}

/// `line` without one carriage return at its end.
pub open spec fn without_return(line: Seq<char>) -> Seq<char> {
    if line.len() > 0 && line.last() == '\r' {
        line.drop_last()
    } else {
        line
    }
}

/// The lines of `s`. A line ends at `\n` or `\r\n`, which belongs to no line; the ending of the
/// last line is optional.
pub open spec fn lines_of(s: Seq<char>) -> Seq<Seq<char>>
    decreases s.len(),
{
    let end = first_index(s, '\n');
    if s.len() == 0 {
        Seq::empty()
    } else if 0 <= end < s.len() {
        seq![without_return(s.take(end))] + lines_of(s.skip(end + 1))
    } else {
        seq![s]
    }
}

/// What stands before and after the first `c` in `s`.
pub open spec fn split_at_first(s: Seq<char>, c: char) -> Option<(Seq<char>, Seq<char>)> {
    let at = first_index(s, c);
    if at < s.len() {
        Some((s.take(at), s.skip(at + 1)))
    } else {
        None
    }
}

/// The lower-case form of an ASCII letter; every other character as it is.
pub open spec fn ascii_lower(c: char) -> char {
    if 'A' <= c <= 'Z' {
        ((c as u32) + 32) as char
    } else {
        c
    }
}

/// `a` and `b` differ at most in the case of ASCII letters.
pub open spec fn same_ignoring_ascii_case(a: Seq<char>, b: Seq<char>) -> bool {
    a.len() == b.len() && forall|i: int|
        0 <= i < a.len() ==> ascii_lower(#[trigger] a[i]) == ascii_lower(b[i])
}

/// The first `c` is where `first_index` says, and nowhere before.
pub proof fn lemma_first_index(s: Seq<char>, c: char)
    ensures
        0 <= first_index(s, c) <= s.len(),
        first_index(s, c) < s.len() ==> s[first_index(s, c)] == c,
        forall|i: int| 0 <= i < first_index(s, c) ==> s[i] != c,
    decreases s.len(),
{
    if s.len() > 0 && s[0] != c {
        lemma_first_index(s.drop_first(), c);
        assert forall|i: int| 0 <= i < first_index(s, c) implies s[i] != c by {
            if i > 0 {
                assert(s.drop_first()[i - 1] == s[i]);
            }
        }
    }
}

proof fn lemma_first_index_unique(s: Seq<char>, c: char, at: int)
    requires
        0 <= at <= s.len(),
        at < s.len() ==> s[at] == c,
        forall|i: int| 0 <= i < at ==> s[i] != c,
    ensures
        first_index(s, c) == at,
{
    lemma_first_index(s, c);
}

/// The characters of `s` as a vector.
pub fn chars_of(s: &str) -> (chars: Vec<char>)
    ensures
        chars@ == s@,
{
    let mut chars: Vec<char> = Vec::new();
    for c in it: s.chars()
        invariant
            chars@ == s@.take(it.index() as int),
            it.seq() == s@,
    {
        chars.push(c);
    }
    chars
}

/// Whether `c` is white space.
pub fn white_space(c: char) -> (r: bool)
    ensures
        r == is_white_space(c),
{
    ('\u{9}' <= c && c <= '\u{d}') || c == '\u{20}' || c == '\u{85}' || c == '\u{a0}' || c
        == '\u{1680}' || ('\u{2000}' <= c && c <= '\u{200a}') || c == '\u{2028}' || c == '\u{2029}'
        || c == '\u{202f}' || c == '\u{205f}' || c == '\u{3000}'
}

/// `s` without white space at either end.
pub fn trim<'a>(s: &'a str) -> (r: &'a str)
    ensures
        r@ == trimmed(s@),
{
    let chars = chars_of(s);
    let mut low: usize = 0;
    assert(s@.skip(0) == s@);
    while low < chars.len() && white_space(chars[low])
        invariant
            chars@ == s@,
            low <= chars.len(),
            trim_start(s@) == trim_start(s@.skip(low as int)),
        decreases chars.len() - low,
    {
        assert(s@.skip(low as int).drop_first() == s@.skip(low + 1));
        low = low + 1;
    }
    let ghost body = s@.skip(low as int);
    assert(trim_start(s@) == body);
    let mut high: usize = chars.len();
    assert(s@.subrange(low as int, high as int) == body);
    while high > low && white_space(chars[high - 1])
        invariant
            chars@ == s@,
            low <= high <= chars.len(),
            trim_end(body) == trim_end(s@.subrange(low as int, high as int)),
        decreases high,
    {
        assert(s@.subrange(low as int, high as int).drop_last() == s@.subrange(
            low as int,
            high - 1,
        ));
        high = high - 1;
    }
    s.substring_char(low, high)
}

/// Whether two texts are the same.
pub fn same_text(a: &str, b: &str) -> (r: bool)
    ensures
        r == (a@ == b@),
{
    let left = a.to_owned();
    let right = b.to_owned();
    left == right
}

/// Whether `s` begins with `prefix`.
pub fn starts_with(s: &str, prefix: &str) -> (r: bool)
    ensures
        r == prefix@.is_prefix_of(s@),
{
    let n = prefix.unicode_len();
    if n > s.unicode_len() {
        return false;
    }
    same_text(s.substring_char(0, n), prefix)
}

/// The position of the first `c` at or after `from`, or the length where there is none.
fn find_from(chars: &Vec<char>, c: char, from: usize) -> (at: usize)
    requires
        from <= chars.len(),
    ensures
        from <= at <= chars.len(),
        at - from == first_index(chars@.skip(from as int), c),
{
    let mut at: usize = from;
    while at < chars.len() && chars[at] != c
        invariant
            from <= at <= chars.len(),
            forall|i: int| from <= i < at ==> chars@[i] != c,
        decreases chars.len() - at,
    {
        at = at + 1;
    }
    proof {
        let rest = chars@.skip(from as int);
        assert forall|i: int| 0 <= i < at - from implies rest[i] != c by {
            assert(rest[i] == chars@[from + i]);
        }
        lemma_first_index_unique(rest, c, at - from);
    }
    at
}

/// What stands before and after the first `c` in `s`.
pub fn split_once<'a>(s: &'a str, c: char) -> (r: Option<(&'a str, &'a str)>)
    ensures
        match r {
            Some((before, after)) => split_at_first(s@, c) == Some((before@, after@)),
            None => split_at_first(s@, c) is None,
        },
{
    let chars = chars_of(s);
    assert(chars@.skip(0) == s@);
    let at = find_from(&chars, c, 0);
    if at < chars.len() {
        let before = s.substring_char(0, at);
        let after = s.substring_char(at + 1, chars.len());
        assert(before@ == s@.take(at as int));
        assert(after@ == s@.skip(at + 1));
        Some((before, after))
    } else {
        None
    }
}

/// The lines of `s`.
pub fn lines<'a>(s: &'a str) -> (r: Vec<&'a str>)
    ensures
        r.deep_view() == lines_of(s@),
{
    let chars = chars_of(s);
    let mut found: Vec<&'a str> = Vec::new();
    let mut start: usize = 0;
    assert(s@.skip(0) == s@);
    assert(found.deep_view() + lines_of(s@) == lines_of(s@));
    while start < chars.len()
        invariant
            chars@ == s@,
            start <= chars.len(),
            found.deep_view() + lines_of(s@.skip(start as int)) == lines_of(s@),
        decreases chars.len() - start,
    {
        let ghost before = found.deep_view();
        let ghost rest = s@.skip(start as int);
        let end = find_from(&chars, '\n', start);
        if end < chars.len() {
            let stop = if end > start && chars[end - 1] == '\r' {
                end - 1
            } else {
                end
            };
            let line = s.substring_char(start, stop);
            found.push(line);
            proof {
                assert(line@ == without_return(rest.take(end - start)));
                assert(rest.skip(end - start + 1) == s@.skip(end + 1));
                assert(found.deep_view() == before.push(line@));
                assert(found.deep_view() + lines_of(s@.skip(end + 1)) == before + (seq![line@]
                    + lines_of(s@.skip(end + 1))));
            }
            start = end + 1;
        } else {
            let line = s.substring_char(start, end);
            found.push(line);
            proof {
                assert(line@ == rest);
                assert(found.deep_view() == before.push(line@));
                assert(before + seq![rest] == before.push(rest));
                assert(s@.skip(end as int) == Seq::<char>::empty());
                assert(found.deep_view() + Seq::<Seq<char>>::empty() == found.deep_view());
            }
            start = end;
        }
    }
    assert(s@.skip(start as int).len() == 0);
    assert(found.deep_view() + Seq::<Seq<char>>::empty() == found.deep_view());
    found
}

fn to_ascii_lower(c: char) -> (r: char)
    ensures
        r == ascii_lower(c),
{
    if 'A' <= c && c <= 'Z' {
        ((c as u8) + 32) as char
    } else {
        c
    }
}

/// Whether `a` and `b` differ at most in the case of ASCII letters.
pub fn eq_ignore_ascii_case(a: &str, b: &str) -> (r: bool)
    ensures
        r == same_ignoring_ascii_case(a@, b@),
{
    let left = chars_of(a);
    let right = chars_of(b);
    if left.len() != right.len() {
        return false;
    }
    for i in 0..left.len()
        invariant
            left.len() == right.len(),
            left@ == a@,
            right@ == b@,
            forall|j: int| 0 <= j < i ==> ascii_lower(#[trigger] a@[j]) == ascii_lower(b@[j]),
    {
        if to_ascii_lower(left[i]) != to_ascii_lower(right[i]) {
            return false;
        }
    }
    true
}

/// `s` has no white space at either end.
pub open spec fn is_trimmed(s: Seq<char>) -> bool {
    s.len() > 0 ==> !is_white_space(s[0]) && !is_white_space(s.last())
}

/// Trimming leaves no white space at either end, and leaves a text without any as it is.
pub proof fn law_trimmed(s: Seq<char>)
    ensures
        is_trimmed(trimmed(s)),
        is_trimmed(s) ==> trimmed(s) == s,
        trimmed(trimmed(s)) == trimmed(s),
{
    lemma_trim_start(s);
    lemma_trim_end(trim_start(s));
}

proof fn lemma_trim_start(s: Seq<char>)
    ensures
        trim_start(s).len() > 0 ==> !is_white_space(trim_start(s)[0]),
    decreases s.len(),
{
    if s.len() > 0 && is_white_space(s[0]) {
        lemma_trim_start(s.drop_first());
    }
}

proof fn lemma_trim_end(s: Seq<char>)
    ensures
        trim_end(s).len() <= s.len(),
        trim_end(s) == s.take(trim_end(s).len() as int),
        trim_end(s).len() > 0 ==> !is_white_space(trim_end(s).last()),
    decreases s.len(),
{
    if s.len() > 0 && is_white_space(s.last()) {
        lemma_trim_end(s.drop_last());
        let n = trim_end(s).len() as int;
        assert(s.drop_last().take(n) == s.take(n));
    } else {
        assert(s.take(s.len() as int) == s);
    }
}

/// What an operation that gives a text gave.
pub open spec fn text_view<E>(text: Result<String, E>) -> Result<Seq<char>, E> {
    match text {
        Ok(text) => Ok(text@),
        Err(e) => Err(e),
    }
}

/// The white space is just these characters.
pub proof fn law_white_space(c: char)
    ensures
        is_white_space(c) <==> seq![
            0x9u32, 0xA, 0xB, 0xC, 0xD, 0x20, 0x85, 0xA0, 0x1680, 0x2000, 0x2001, 0x2002, 0x2003,
            0x2004, 0x2005, 0x2006, 0x2007, 0x2008, 0x2009, 0x200A, 0x2028, 0x2029, 0x202F, 0x205F,
            0x3000,
        ].contains(c as u32),
{
    let points = seq![
        0x9u32, 0xA, 0xB, 0xC, 0xD, 0x20, 0x85, 0xA0, 0x1680, 0x2000, 0x2001, 0x2002, 0x2003,
        0x2004, 0x2005, 0x2006, 0x2007, 0x2008, 0x2009, 0x200A, 0x2028, 0x2029, 0x202F, 0x205F,
        0x3000,
    ];
    let n = c as u32;
    if is_white_space(c) {
        let at: int = if n <= 0xD {
            n - 0x9
        } else if n == 0x20 {
            5
        } else if n == 0x85 {
            6
        } else if n == 0xA0 {
            7
        } else if n == 0x1680 {
            8
        } else if n <= 0x200A {
            9 + (n - 0x2000)
        } else if n == 0x2028 {
            20
        } else if n == 0x2029 {
            21
        } else if n == 0x202F {
            22
        } else if n == 0x205F {
            23
        } else {
            24
        };
        assert(points[at] == n);
    }
}

/// Trimming takes away white space in front and behind and nothing else: what is left is a stretch
/// of the text, with white space alone on either side of it and at neither end of it.
pub proof fn law_trimmed_is_the_middle(s: Seq<char>)
    ensures
        exists|i: int, j: int|
            0 <= i <= j <= s.len() && trimmed(s) == #[trigger] s.subrange(i, j) && (forall|k: int|
                0 <= k < s.len() && (k < i || j <= k) ==> is_white_space(#[trigger] s[k])),
        trimmed(s).len() > 0 ==> !is_white_space(trimmed(s)[0]) && !is_white_space(
            trimmed(s).last(),
        ),
{
    law_trimmed(s);
    lemma_trim_start_skips(s);
    let body = trim_start(s);
    lemma_trim_end_takes(body);
    let i = s.len() - body.len();
    let j = i + trimmed(s).len();
    assert(trimmed(s) == s.subrange(i, j));
    assert forall|k: int| 0 <= k < s.len() && (k < i || j <= k) implies is_white_space(
        #[trigger] s[k],
    ) by {
        if j <= k {
            assert(body[k - i] == s[k]);
        }
    }
}

proof fn lemma_trim_start_skips(s: Seq<char>)
    ensures
        trim_start(s).len() <= s.len(),
        trim_start(s) == s.skip(s.len() - trim_start(s).len()),
        forall|k: int| 0 <= k < s.len() - trim_start(s).len() ==> is_white_space(#[trigger] s[k]),
    decreases s.len(),
{
    if s.len() > 0 && is_white_space(s[0]) {
        let rest = s.drop_first();
        lemma_trim_start_skips(rest);
        let n = s.len() - trim_start(s).len();
        assert(rest.skip(n - 1) == s.skip(n));
        assert forall|k: int| 0 <= k < n implies is_white_space(#[trigger] s[k]) by {
            if k > 0 {
                assert(rest[k - 1] == s[k]);
            }
        }
    } else {
        assert(s.skip(0) == s);
    }
}

proof fn lemma_trim_end_takes(s: Seq<char>)
    ensures
        trim_end(s).len() <= s.len(),
        trim_end(s) == s.take(trim_end(s).len() as int),
        forall|k: int| trim_end(s).len() <= k < s.len() ==> is_white_space(#[trigger] s[k]),
    decreases s.len(),
{
    lemma_trim_end(s);
    if s.len() > 0 && is_white_space(s.last()) {
        let front = s.drop_last();
        lemma_trim_end_takes(front);
        assert forall|k: int| trim_end(s).len() <= k < s.len() implies is_white_space(
            #[trigger] s[k],
        ) by {
            if k < front.len() {
                assert(front[k] == s[k]);
            }
        }
    }
}

/// The first line of a text is what stands before its first line end, without the carriage return
/// that may belong to the end. The lines of what follows are the others. A text without a line end
/// is one line as it stands, and a text without anything has no line.
pub proof fn law_lines(line: Seq<char>, rest: Seq<char>)
    requires
        !line.contains('\n'),
    ensures
        lines_of(Seq::empty()).len() == 0,
        line.len() > 0 ==> lines_of(line) == seq![line],
        line.len() == 0 || line.last() != '\r' ==> lines_of(line + seq!['\n'] + rest) == seq![line]
            + lines_of(rest),
        lines_of(line + seq!['\r', '\n'] + rest) == seq![line] + lines_of(rest),
{
    lemma_no_end(line);
    let text = line + seq!['\n'] + rest;
    lemma_first_line(line, text, rest);
    let returned = line.push('\r');
    let other = line + seq!['\r', '\n'] + rest;
    assert(other == returned + seq!['\n'] + rest);
    assert(!returned.contains('\n')) by {
        if returned.contains('\n') {
            let i = choose|i: int| 0 <= i < returned.len() && returned[i] == '\n';
            assert(line[i] == '\n');
        }
    }
    lemma_first_line(returned, other, rest);
    assert(returned.drop_last() == line);
}

proof fn lemma_no_end(line: Seq<char>)
    requires
        !line.contains('\n'),
    ensures
        first_index(line, '\n') == line.len(),
{
    lemma_first_index(line, '\n');
    if first_index(line, '\n') < line.len() {
        assert(line.contains(line[first_index(line, '\n')]));
    }
}

/// What stands before the first line end is the first line but for a carriage return.
pub proof fn lemma_first_line(line: Seq<char>, text: Seq<char>, rest: Seq<char>)
    requires
        !line.contains('\n'),
        text == line + seq!['\n'] + rest,
    ensures
        lines_of(text) == seq![without_return(line)] + lines_of(rest),
{
    let n = line.len() as int;
    assert(text[n] == '\n');
    assert forall|i: int| 0 <= i < n implies text[i] != '\n' by {
        assert(text[i] == line[i]);
        assert(line.contains(line[i]));
    }
    lemma_first_index_unique(text, '\n', n);
    assert(text.take(n) == line);
    assert(text.skip(n + 1) == rest);
}

/// A text is split at a character exactly where it holds the character: into what stands before the
/// first one, which holds none, and what stands behind it.
pub proof fn law_split_at_first(s: Seq<char>, c: char)
    ensures
        split_at_first(s, c) is Some <==> s.contains(c),
        split_at_first(s, c) matches Some((before, after)) ==> s == before.push(c) + after
            && !before.contains(c),
{
    lemma_first_index(s, c);
    let at = first_index(s, c);
    if at < s.len() {
        assert(s.contains(s[at]));
        assert(s == s.take(at).push(c) + s.skip(at + 1));
    } else if s.contains(c) {
        let i = choose|i: int| 0 <= i < s.len() && s[i] == c;
        assert(s[i] != c);
    }
}

/// Two texts are the same but for the case of letters exactly if at every place they have the same
/// character, or the two forms of one letter, whose numbers are 32 apart.
pub proof fn law_same_ignoring_ascii_case(a: Seq<char>, b: Seq<char>)
    ensures
        same_ignoring_ascii_case(a, b) <==> a.len() == b.len() && forall|i: int|
            0 <= i < a.len() ==> {
                ||| (#[trigger] a[i]) == b[i]
                ||| 'A' <= a[i] <= 'Z' && b[i] as int == a[i] as int + 32
                ||| 'A' <= b[i] <= 'Z' && a[i] as int == b[i] as int + 32
            },
{
    if same_ignoring_ascii_case(a, b) {
        assert forall|i: int| 0 <= i < a.len() implies {
            ||| (#[trigger] a[i]) == b[i]
            ||| 'A' <= a[i] <= 'Z' && b[i] as int == a[i] as int + 32
            ||| 'A' <= b[i] <= 'Z' && a[i] as int == b[i] as int + 32
        } by {
            assert(ascii_lower(a[i]) == ascii_lower(b[i]));
        }
    }
}

/// White space behind a text makes no difference to what trimming leaves.
pub proof fn lemma_trimmed_without_last(s: Seq<char>)
    requires
        s.len() > 0,
        is_white_space(s.last()),
    ensures
        trimmed(s.drop_last()) == trimmed(s),
    decreases s.len(),
{
    if is_white_space(s[0]) {
        if s.len() == 1 {
            assert(s.drop_first() == s.drop_last());
        } else {
            let rest = s.drop_first();
            lemma_trimmed_without_last(rest);
            assert(rest.drop_last() == s.drop_last().drop_first());
        }
    }
}

/// A carriage return behind a text makes no difference to what trimming leaves.
pub proof fn lemma_trimmed_without_return(s: Seq<char>)
    ensures
        trimmed(without_return(s)) == trimmed(s),
{
    if s.len() > 0 && s.last() == '\r' {
        lemma_trimmed_without_last(s);
    }
}

/// A line behind whole lines is one line more.
pub proof fn lemma_one_more_line(text: Seq<char>, line: Seq<char>)
    requires
        text.len() == 0 || text.last() == '\n',
        !line.contains('\n'),
    ensures
        lines_of(text + line.push('\n')) == lines_of(text).push(without_return(line)),
    decreases text.len(),
{
    let whole = text + line.push('\n');
    if text.len() == 0 {
        assert(whole == line + seq!['\n'] + Seq::<char>::empty());
        lemma_first_line(line, whole, Seq::empty());
        assert(lines_of(text) == Seq::<Seq<char>>::empty());
        assert(lines_of(whole) == lines_of(text).push(without_return(line)));
    } else {
        lemma_first_index(text, '\n');
        let at = first_index(text, '\n');
        assert(text[text.len() - 1] == '\n');
        let first = text.take(at);
        let rest = text.skip(at + 1);
        assert(!first.contains('\n'));
        assert(text == first + seq!['\n'] + rest);
        assert(whole == first + seq!['\n'] + (rest + line.push('\n')));
        lemma_first_line(first, text, rest);
        lemma_first_line(first, whole, rest + line.push('\n'));
        if rest.len() > 0 {
            assert(rest.last() == text.last());
        }
        lemma_one_more_line(rest, line);
        assert(lines_of(whole) == lines_of(text).push(without_return(line)));
    }
}

/// The end of the last line can be left out: the lines are the same but for a carriage return.
pub proof fn lemma_last_line_end(text: Seq<char>)
    requires
        text.len() > 0,
        text.last() != '\n',
    ensures
        lines_of(text.push('\n')).len() == lines_of(text).len(),
        forall|i: int|
            0 <= i < lines_of(text).len() ==> trimmed(#[trigger] lines_of(text.push('\n'))[i])
                == trimmed(lines_of(text)[i]),
    decreases text.len(),
{
    let ended = text.push('\n');
    lemma_first_index(text, '\n');
    let at = first_index(text, '\n');
    if at < text.len() {
        let first = text.take(at);
        let rest = text.skip(at + 1);
        assert(!first.contains('\n'));
        assert(text == first + seq!['\n'] + rest);
        assert(rest.last() == text.last());
        assert(ended == first + seq!['\n'] + rest.push('\n'));
        lemma_first_line(first, text, rest);
        lemma_first_line(first, ended, rest.push('\n'));
        lemma_last_line_end(rest);
        assert forall|i: int| 0 <= i < lines_of(text).len() implies trimmed(
            #[trigger] lines_of(ended)[i],
        ) == trimmed(lines_of(text)[i]) by {
            if i > 0 {
                assert(lines_of(ended)[i] == lines_of(rest.push('\n'))[i - 1]);
                assert(lines_of(text)[i] == lines_of(rest)[i - 1]);
            }
        }
    } else {
        assert(!text.contains('\n'));
        assert(ended == text + seq!['\n'] + Seq::<char>::empty());
        lemma_first_line(text, ended, Seq::empty());
        lemma_trimmed_without_return(text);
        assert(lines_of(ended) == seq![without_return(text)]);
    }
}

} // verus!
