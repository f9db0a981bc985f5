//! Character-level text primitives: whitespace, trimming, line splitting and
//! the conversions between strings and character slices.

use vstd::prelude::*;
use vstd::slice::slice_subrange;

verus! {

/// Whether `c` carries the Unicode `White_Space` property.
pub open spec fn is_whitespace(c: char) -> bool {
    ||| '\u{9}' <= c <= '\u{D}'
    ||| c == ' '
    ||| c == '\u{85}'
    ||| c == '\u{A0}'
    ||| c == '\u{1680}'
    ||| '\u{2000}' <= c <= '\u{200A}'
    ||| c == '\u{2028}'
    ||| c == '\u{2029}'
    ||| c == '\u{202F}'
    ||| c == '\u{205F}'
    ||| c == '\u{3000}'
}

/// The number of whitespace characters that `s` starts with.
pub open spec fn leading_whitespace(s: Seq<char>) -> nat
    decreases s.len(),
{
    if s.len() > 0 && is_whitespace(s[0]) {
        1 + leading_whitespace(s.skip(1))
    } else {
        0
    }
}

/// The number of whitespace characters that `s` ends with.
pub open spec fn trailing_whitespace(s: Seq<char>) -> nat
    decreases s.len(),
{
    if s.len() > 0 && is_whitespace(s.last()) {
        1 + trailing_whitespace(s.drop_last())
    } else {
        0
    }
}

/// `s` without its leading whitespace.
pub open spec fn trim_start(s: Seq<char>) -> Seq<char> {
    s.skip(leading_whitespace(s) as int)
}

/// `s` without its trailing whitespace.
pub open spec fn trim_end(s: Seq<char>) -> Seq<char> {
    s.take(s.len() - trailing_whitespace(s))
}

/// `s` without its leading and trailing whitespace.
pub open spec fn trim(s: Seq<char>) -> Seq<char> {
    trim_end(trim_start(s))
}

/// A line is blank when it holds nothing but whitespace.
pub open spec fn is_blank(s: Seq<char>) -> bool {
    forall|i: int| 0 <= i < s.len() ==> is_whitespace(#[trigger] s[i])
}

/// `leading_whitespace(s)` is the one position that splits `s` into a run of
/// whitespace and a rest that does not start with whitespace.
pub proof fn lemma_leading_whitespace(s: Seq<char>, k: int)
    requires
        0 <= k <= s.len(),
        forall|i: int| 0 <= i < k ==> is_whitespace(#[trigger] s[i]),
        k < s.len() ==> !is_whitespace(s[k]),
    ensures
        leading_whitespace(s) == k,
    decreases k,
{
    if k > 0 {
        lemma_leading_whitespace(s.skip(1), k - 1);
    }
}

/// `trailing_whitespace(s)` is the one length of a whitespace suffix of `s`
/// that is not preceded by whitespace.
pub proof fn lemma_trailing_whitespace(s: Seq<char>, k: int)
    requires
        0 <= k <= s.len(),
        forall|i: int| s.len() - k <= i < s.len() ==> is_whitespace(#[trigger] s[i]),
        k < s.len() ==> !is_whitespace(s[s.len() - k - 1]),
    ensures
        trailing_whitespace(s) == k,
    decreases k,
{
    if k > 0 {
        lemma_trailing_whitespace(s.drop_last(), k - 1);
    }
}

/// `leading_whitespace(s)` lies within `s`, behind whitespace and in front of
/// a character that is none, or at the end.
pub proof fn lemma_leading_whitespace_bounds(s: Seq<char>)
    ensures
        leading_whitespace(s) <= s.len(),
        forall|i: int| 0 <= i < leading_whitespace(s) ==> is_whitespace(#[trigger] s[i]),
        leading_whitespace(s) < s.len() ==> !is_whitespace(s[leading_whitespace(s) as int]),
    decreases s.len(),
{
    if s.len() > 0 && is_whitespace(s[0]) {
        let rest = s.skip(1);
        lemma_leading_whitespace_bounds(rest);
        assert forall|i: int| 0 <= i < leading_whitespace(s) implies is_whitespace(
            #[trigger] s[i],
        ) by {
            if i > 0 {
                assert(s[i] == rest[i - 1]);
            }
        }
    }
}

/// The last `trailing_whitespace(s)` characters of `s` are whitespace, and
/// the one before them, if there is one, is none.
pub proof fn lemma_trailing_whitespace_bounds(s: Seq<char>)
    ensures
        trailing_whitespace(s) <= s.len(),
        forall|i: int|
            s.len() - trailing_whitespace(s) <= i < s.len() ==> is_whitespace(#[trigger] s[i]),
        trailing_whitespace(s) < s.len() ==> !is_whitespace(
            s[s.len() - trailing_whitespace(s) - 1],
        ),
    decreases s.len(),
{
    if s.len() > 0 && is_whitespace(s.last()) {
        let rest = s.drop_last();
        lemma_trailing_whitespace_bounds(rest);
        assert forall|i: int|
            s.len() - trailing_whitespace(s) <= i < s.len() implies is_whitespace(
            #[trigger] s[i],
        ) by {
            if i < s.len() - 1 {
                assert(s[i] == rest[i]);
            }
        }
    }
}

/// What trimming keeps: the part of `s` behind its leading whitespace that
/// ends with its last character that is no whitespace. It neither starts nor
/// ends with whitespace, and it is empty if and only if `s` is blank.
pub proof fn lemma_trim(s: Seq<char>)
    ensures
        leading_whitespace(s) + trim(s).len() <= s.len(),
        trim(s) == s.subrange(
            leading_whitespace(s) as int,
            (leading_whitespace(s) + trim(s).len()) as int,
        ),
        trim(s).len() > 0 ==> !is_whitespace(trim(s)[0]) && !is_whitespace(trim(s).last()),
        forall|i: int|
            leading_whitespace(s) + trim(s).len() <= i < s.len() ==> is_whitespace(
                #[trigger] s[i],
            ),
        trim(s).len() == 0 <==> is_blank(s),
{
    let k = leading_whitespace(s) as int;
    let t = trim_start(s);
    lemma_leading_whitespace_bounds(s);
    lemma_trailing_whitespace_bounds(t);
    assert forall|i: int| k + trim(s).len() <= i < s.len() implies is_whitespace(
        #[trigger] s[i],
    ) by {
        assert(s[i] == t[i - k]);
    }
}

/// Decides `is_whitespace`.
pub fn char_is_whitespace(c: char) -> (b: bool)
    ensures
        b == is_whitespace(c),
{
    ('\u{9}' <= c && c <= '\u{D}') || c == ' ' || c == '\u{85}' || c == '\u{A0}' || c
        == '\u{1680}' || ('\u{2000}' <= c && c <= '\u{200A}') || c == '\u{2028}' || c
        == '\u{2029}' || c == '\u{202F}' || c == '\u{205F}' || c == '\u{3000}'
}

/// The characters of `s`, in order.
pub fn chars_of(s: &str) -> (v: Vec<char>)
    ensures
        v@ == s@,
{
    let mut v: Vec<char> = Vec::new();
    for c in it: s.chars()
        invariant
            it.seq() == s@,
            v@ == it.seq().take(it.index()),
    {
        v.push(c);
    }
    v
}

/// `String::push` appends one character at the end and leaves the rest as it
/// was.
pub assume_specification[ String::push ](s: &mut String, c: char)
    ensures
        final(s)@ == old(s)@.push(c),
;

/// A string that holds the characters of `s`, in order.
pub fn string_of(s: &[char]) -> (r: String)
    ensures
        r@ == s@,
{
    let mut r = String::new();
    let mut i: usize = 0;
    while i < s.len()
        invariant
            i <= s.len(),
            r@ == s@.take(i as int),
        decreases s.len() - i,
    {
        r.push(s[i]);
        i += 1;
    }
    r
}

/// The part of `s` that starts at `from`, or nothing when `s` is shorter.
pub fn skip_chars<'a>(s: &'a [char], from: usize) -> (r: &'a [char])
    ensures
        from <= s.len() ==> r@ == s@.skip(from as int),
        from > s.len() ==> r@ == Seq::<char>::empty(),
{
    if from <= s.len() {
        slice_subrange(s, from, s.len())
    } else {
        slice_subrange(s, 0, 0)
    }
}

/// `s` without its leading whitespace.
pub fn trim_start_chars<'a>(s: &'a [char]) -> (r: &'a [char])
    ensures
        r@ == trim_start(s@),
{
    let mut k: usize = 0;
    while k < s.len() && char_is_whitespace(s[k])
        invariant
            k <= s.len(),
            forall|i: int| 0 <= i < k ==> is_whitespace(#[trigger] s@[i]),
        decreases s.len() - k,
    {
        k += 1;
    }
    proof {
        lemma_leading_whitespace(s@, k as int);
    }
    slice_subrange(s, k, s.len())
}

/// `s` without its trailing whitespace.
pub fn trim_end_chars<'a>(s: &'a [char]) -> (r: &'a [char])
    ensures
        r@ == trim_end(s@),
{
    let mut n: usize = s.len();
    while n > 0 && char_is_whitespace(s[n - 1])
        invariant
            n <= s.len(),
            forall|i: int| n <= i < s.len() ==> is_whitespace(#[trigger] s@[i]),
        decreases n,
    {
        n -= 1;
    }
    proof {
        lemma_trailing_whitespace(s@, s.len() - n);
    }
    slice_subrange(s, 0, n)
}

/// `s` without its leading and trailing whitespace.
pub fn trim_chars<'a>(s: &'a [char]) -> (r: &'a [char])
    ensures
        r@ == trim(s@),
{
    trim_end_chars(trim_start_chars(s))
}

/// Decides `is_blank`.
pub fn is_blank_chars(s: &[char]) -> (b: bool)
    ensures
        b == is_blank(s@),
{
    let mut i: usize = 0;
    while i < s.len()
        invariant
            i <= s.len(),
            forall|j: int| 0 <= j < i ==> is_whitespace(#[trigger] s@[j]),
        decreases s.len() - i,
    {
        if !char_is_whitespace(s[i]) {
            return false;
        }
        i += 1;
    }
    true
}

/// The length of the first line of `s`: the position of its first line feed,
/// or its length where it has none.
pub open spec fn line_end(s: Seq<char>) -> nat
    decreases s.len(),
{
    if s.len() > 0 && s[0] != '\n' {
        1 + line_end(s.skip(1))
    } else {
        0
    }
}

/// `s` without a carriage return at its end.
pub open spec fn strip_carriage_return(s: Seq<char>) -> Seq<char> {
    if s.len() > 0 && s.last() == '\r' {
        s.drop_last()
    } else {
        s
    }
}

/// The lines of `s`. A line ends at a line feed, or at a carriage return
/// followed by a line feed; neither belongs to the line. What follows the
/// last line feed is a line of its own unless it is empty.
pub open spec fn lines(s: Seq<char>) -> Seq<Seq<char>>
    decreases s.len(),
{
    if s.len() == 0 {
        Seq::empty()
    } else if line_end(s) < s.len() {
        seq![strip_carriage_return(s.take(line_end(s) as int))] + lines(
            s.skip(line_end(s) as int + 1),
        )
    } else {
        seq![s]
    }
}

/// `line_end(s)` is the one position before which `s` has no line feed and
/// at which it has one or ends.
pub proof fn lemma_line_end(s: Seq<char>, k: int)
    requires
        0 <= k <= s.len(),
        forall|i: int| 0 <= i < k ==> #[trigger] s[i] != '\n',
        k < s.len() ==> s[k] == '\n',
    ensures
        line_end(s) == k,
    decreases k,
{
    if k > 0 {
        lemma_line_end(s.skip(1), k - 1);
    }
}

/// `line_end(s)` lies within `s`, on a line feed or at the end, behind
/// characters that are no line feeds.
pub proof fn lemma_line_end_bounds(s: Seq<char>)
    ensures
        line_end(s) <= s.len(),
        forall|i: int| 0 <= i < line_end(s) ==> #[trigger] s[i] != '\n',
        line_end(s) < s.len() ==> s[line_end(s) as int] == '\n',
    decreases s.len(),
{
    if s.len() > 0 && s[0] != '\n' {
        let rest = s.skip(1);
        lemma_line_end_bounds(rest);
        assert forall|i: int| 0 <= i < line_end(s) implies #[trigger] s[i] != '\n' by {
            if i > 0 {
                assert(s[i] == rest[i - 1]);
            }
        }
    }
}

/// Every line is free of line feeds.
pub proof fn lemma_lines_hold_no_line_feed(s: Seq<char>)
    ensures
        forall|i: int, j: int|
            0 <= i < lines(s).len() && 0 <= j < lines(s)[i].len() ==> #[trigger] lines(
                s,
            )[i][j] != '\n',
    decreases s.len(),
{
    lemma_line_end_bounds(s);
    if s.len() > 0 && line_end(s) < s.len() {
        let n = line_end(s) as int;
        let first = strip_carriage_return(s.take(n));
        let rest = lines(s.skip(n + 1));
        lemma_lines_hold_no_line_feed(s.skip(n + 1));
        assert forall|i: int, j: int|
            0 <= i < lines(s).len() && 0 <= j < lines(s)[i].len() implies #[trigger] lines(
            s,
        )[i][j] != '\n' by {
            if i == 0 {
                assert(lines(s)[0] == first);
            } else {
                assert(lines(s)[i] == rest[i - 1]);
            }
        }
    }
}

/// The first line of `s`: what stands before its first line feed.
pub fn first_line_chars<'a>(s: &'a [char]) -> (r: &'a [char])
    ensures
        r@ == s@.take(line_end(s@) as int),
{
    let mut end: usize = 0;
    while end < s.len() && s[end] != '\n'
        invariant
            end <= s.len(),
            forall|i: int| 0 <= i < end ==> #[trigger] s@[i] != '\n',
        decreases s.len() - end,
    {
        end += 1;
    }
    proof {
        lemma_line_end(s@, end as int);
    }
    slice_subrange(s, 0, end)
}

/// `s` without a carriage return at its end.
pub fn strip_carriage_return_chars<'a>(s: &'a [char]) -> (r: &'a [char])
    ensures
        r@ == strip_carriage_return(s@),
{
    if s.len() > 0 && s[s.len() - 1] == '\r' {
        slice_subrange(s, 0, s.len() - 1)
    } else {
        s
    }
}

/// The lines of `s`, in order, each as a part of `s`.
pub fn split_lines<'a>(s: &'a [char]) -> (r: Vec<&'a [char]>)
    ensures
        r.len() == lines(s@).len(),
        forall|i: int| 0 <= i < r.len() ==> (#[trigger] r[i])@ == lines(s@)[i],
{
    let mut r: Vec<&'a [char]> = Vec::new();
    let ghost mut done: Seq<Seq<char>> = Seq::empty();
    let mut start: usize = 0;
    assert(s@.skip(0) == s@);
    while start < s.len()
        invariant
            start <= s.len(),
            done.len() == r.len(),
            forall|i: int| 0 <= i < r.len() ==> (#[trigger] r[i])@ == done[i],
            lines(s@) == done + lines(s@.skip(start as int)),
        decreases s.len() - start,
    {
        let rest = slice_subrange(s, start, s.len());
        let first = first_line_chars(rest);
        proof {
            lemma_line_end_bounds(rest@);
        }
        let end: usize = start + first.len();
        let line = if end < s.len() {
            strip_carriage_return_chars(first)
        } else {
            first
        };
        r.push(line);
        proof {
            if end < s.len() {
                assert(rest@.skip(first.len() + 1) == s@.skip(end + 1));
            } else {
                assert(line@ == rest@);
            }
            done = done.push(line@);
        }
        start = if end < s.len() {
            end + 1
        } else {
            end
        };
    }
    r
}

/// Whether the field separator, a vertical bar between two spaces, stands in
/// `s` at position `i`.
pub open spec fn separator_at(s: Seq<char>, i: int) -> bool {
    &&& 0 <= i
    &&& i + 3 <= s.len()
    &&& s[i] == ' '
    &&& s[i + 1] == '|'
    &&& s[i + 2] == ' '
}

/// Whether the first field separator of `s` stands at position `i`.
pub open spec fn is_first_separator(s: Seq<char>, i: int) -> bool {
    &&& separator_at(s, i)
    &&& forall|j: int| 0 <= j < i ==> !separator_at(s, j)
}

/// The position of the first field separator of `s`, if it has one.
pub open spec fn first_separator(s: Seq<char>) -> Option<int> {
    if exists|i: int| is_first_separator(s, i) {
        Some(choose|i: int| is_first_separator(s, i))
    } else {
        None
    }
}

/// A string has at most one first separator.
pub proof fn lemma_first_separator(s: Seq<char>, i: int)
    requires
        is_first_separator(s, i),
    ensures
        first_separator(s) == Some(i),
{
}

/// Finds the first field separator of `s`.
pub fn find_separator(s: &[char]) -> (found: Option<usize>)
    ensures
        match found {
            Some(i) => first_separator(s@) == Some(i as int) && i + 3 <= s.len(),
            None => first_separator(s@) is None,
        },
{
    let mut i: usize = 0;
    while s.len() >= 3 && i <= s.len() - 3
        invariant
            forall|j: int| 0 <= j < i ==> !separator_at(s@, j),
        decreases s.len() - i,
    {
        if s[i] == ' ' && s[i + 1] == '|' && s[i + 2] == ' ' {
            proof {
                lemma_first_separator(s@, i as int);
            }
            return Some(i);
        }
        i += 1;
    }
    None
}

/// `n` spaces.
pub open spec fn spaces(n: nat) -> Seq<char> {
    Seq::new(n, |i: int| ' ')
}

/// `s` between spaces that fill it up to `width` characters, the smaller
/// half of them in front; `s` itself where it is as wide or wider.
pub open spec fn centered(s: Seq<char>, width: nat) -> Seq<char> {
    if s.len() >= width {
        s
    } else {
        let fill = (width - s.len()) as nat;
        spaces(fill / 2) + s + spaces((fill - fill / 2) as nat)
    }
}

/// Appends `n` spaces to `text`.
pub fn push_spaces(text: &mut String, n: usize)
    ensures
        final(text)@ == old(text)@ + spaces(n as nat),
{
    let mut i: usize = 0;
    while i < n
        invariant
            i <= n,
            text@ == old(text)@ + spaces(i as nat),
        decreases n - i,
    {
        text.push(' ');
        i += 1;
    }
}

} // verus!
