//! Character-level text helpers with exact specifications: Unicode
//! whitespace trimming, ASCII case folding, prefixes and line splitting.

use vstd::prelude::*;

verus! {

/// The characters of `s`.
pub fn chars_of(s: &str) -> (chars: Vec<char>)
    ensures
        chars@ == s@,
{
    let mut chars: Vec<char> = Vec::new();
    for c in it: s.chars()
        invariant
            chars@ == it.seq().take(it.index() as int),
    {
        chars.push(c);
    }
    chars
}

/// Unicode White_Space, the characters that `str::trim` removes.
pub open spec fn is_white_space(c: char) -> bool {
    ||| '\u{9}' <= c <= '\u{d}'
    ||| c == ' '
    ||| c == '\u{85}'
    ||| c == '\u{a0}'
    ||| c == '\u{1680}'
    ||| '\u{2000}' <= c <= '\u{200a}'
    ||| c == '\u{2028}'
    ||| c == '\u{2029}'
    ||| c == '\u{202f}'
    ||| c == '\u{205f}'
    ||| c == '\u{3000}'
}

pub fn white_space(c: char) -> (result: bool)
    ensures
        result == is_white_space(c),
{
    ('\u{9}' <= c && c <= '\u{d}') || c == ' ' || c == '\u{85}' || c == '\u{a0}' || c == '\u{1680}'
        || ('\u{2000}' <= c && c <= '\u{200a}') || c == '\u{2028}' || c == '\u{2029}' || c
        == '\u{202f}' || c == '\u{205f}' || c == '\u{3000}'
}

/// `s` without leading white space.
pub open spec fn trim_start(s: Seq<char>) -> Seq<char>
    decreases s.len(),
{
    if s.len() > 0 && is_white_space(s[0]) {
        trim_start(s.drop_first())
    } else {
        s
    }
}

/// `s` without trailing white space.
pub open spec fn trim_end(s: Seq<char>) -> Seq<char>
    decreases s.len(),
{
    if s.len() > 0 && is_white_space(s.last()) {
        trim_end(s.drop_last())
    } else {
        s
    }
}

/// `s` without leading and trailing white space.
pub open spec fn trim(s: Seq<char>) -> Seq<char> {
    trim_end(trim_start(s))
}

/// ASCII upper-case letters become lower case; every other character stays.
pub open spec fn ascii_lower(c: char) -> char {
    if 'A' <= c <= 'Z' {
        ((c as u32) + 32) as char
    } else {
        c
    }
}

pub open spec fn ascii_lowercase(s: Seq<char>) -> Seq<char> {
    s.map_values(|c: char| ascii_lower(c))
}

/// Equality up to ASCII case.
pub open spec fn eq_ignore_ascii_case(a: Seq<char>, b: Seq<char>) -> bool {
    ascii_lowercase(a) == ascii_lowercase(b)
}

pub open spec fn starts_with(s: Seq<char>, prefix: Seq<char>) -> bool {
    prefix.len() <= s.len() && s.subrange(0, prefix.len() as int) == prefix
}

/// Index of the first `c` at or after `from`, or the length when there is
/// none.
pub open spec fn find_char(s: Seq<char>, c: char, from: int) -> int
    decreases s.len() - from,
{
    if from >= s.len() {
        s.len() as int
    } else if from >= 0 && s[from] == c {
        from
    } else {
        find_char(s, c, from + 1)
    }
}

pub proof fn lemma_find_char_bounds(s: Seq<char>, c: char, from: int)
    requires
        0 <= from,
    ensures
        from <= find_char(s, c, from) || (from > s.len() && find_char(s, c, from) == s.len()),
        find_char(s, c, from) <= s.len() || from > s.len(),
        find_char(s, c, from) < s.len() ==> s[find_char(s, c, from)] == c,
        forall|i: int| from <= i < find_char(s, c, from) ==> s[i] != c,
    decreases s.len() - from,
{
    if from < s.len() && s[from] != c {
        lemma_find_char_bounds(s, c, from + 1);
    }
}

/// A line without its carriage return, when one precedes the newline.
pub open spec fn strip_carriage_return(line: Seq<char>) -> Seq<char> {
    if line.len() > 0 && line.last() == '\r' {
        line.drop_last()
    } else {
        line
    }
}

/// The lines of `s` from index `from`, as `str::lines` yields them: split at
/// `\n`, a `\r` before the `\n` removed, and no empty line after a final
/// newline.
pub open spec fn lines_from(s: Seq<char>, from: int) -> Seq<Seq<char>>
    decreases s.len() - from,
    via lines_from_decreases
{
    if from < 0 || from >= s.len() {
        Seq::empty()
    } else {
        let end = find_char(s, '\n', from);
        if end < s.len() {
            seq![strip_carriage_return(s.subrange(from, end))] + lines_from(s, end + 1)
        } else {
            seq![s.subrange(from, s.len() as int)]
        }
    }
}

#[via_fn]
proof fn lines_from_decreases(s: Seq<char>, from: int) {
    if !(from < 0 || from >= s.len()) {
        lemma_find_char_bounds(s, '\n', from);
    }
}

pub open spec fn lines(s: Seq<char>) -> Seq<Seq<char>> {
    lines_from(s, 0)
}

/// The index at which `chars[from..to]` stops starting with white space.
pub fn skip_white_space(chars: &Vec<char>, from: usize, to: usize) -> (index: usize)
    requires
        from <= to <= chars@.len(),
    ensures
        from <= index <= to,
        chars@.subrange(index as int, to as int) == trim_start(chars@.subrange(from as int, to as int)),
{
    let mut index = from;
    while index < to && white_space(chars[index])
        invariant
            from <= index <= to <= chars@.len(),
            trim_start(chars@.subrange(index as int, to as int)) == trim_start(
                chars@.subrange(from as int, to as int),
            ),
        decreases to - index,
    {
        assert(chars@.subrange(index as int, to as int).drop_first() =~= chars@.subrange(
            index + 1,
            to as int,
        ));
        index = index + 1;
    }
    index
}

/// The index at which `chars[from..to]` stops ending with white space.
pub fn skip_white_space_back(chars: &Vec<char>, from: usize, to: usize) -> (index: usize)
    requires
        from <= to <= chars@.len(),
    ensures
        from <= index <= to,
        chars@.subrange(from as int, index as int) == trim_end(chars@.subrange(from as int, to as int)),
{
    let mut index = to;
    while index > from && white_space(chars[index - 1])
        invariant
            from <= index <= to <= chars@.len(),
            trim_end(chars@.subrange(from as int, index as int)) == trim_end(
                chars@.subrange(from as int, to as int),
            ),
        decreases index - from,
    {
        assert(chars@.subrange(from as int, index as int).drop_last() =~= chars@.subrange(
            from as int,
            index - 1,
        ));
        index = index - 1;
    }
    index
}

/// Bounds of the trimmed `chars`.
pub fn trim_bounds(chars: &Vec<char>) -> (bounds: (usize, usize))
    ensures
        bounds.0 <= bounds.1 <= chars@.len(),
        chars@.subrange(bounds.0 as int, bounds.1 as int) == trim(chars@),
{
    let start = skip_white_space(chars, 0, chars.len());
    let end = skip_white_space_back(chars, start, chars.len());
    assert(chars@.subrange(0, chars@.len() as int) =~= chars@);
    (start, end)
}

pub fn to_ascii_lower(c: char) -> (lower: char)
    ensures
        lower == ascii_lower(c),
{
    if 'A' <= c && c <= 'Z' {
        let code = c as u8;
        assert(code == c as u32);
        ((code + 32) as u8) as char
    } else {
        c
    }
}

/// Whether `chars[from..to]` equals `other` up to ASCII case.
pub fn range_eq_ignore_ascii_case(chars: &Vec<char>, from: usize, to: usize, other: &Vec<char>) -> (equal: bool)
    requires
        from <= to <= chars@.len(),
    ensures
        equal == eq_ignore_ascii_case(chars@.subrange(from as int, to as int), other@),
{
    let ghost a = chars@.subrange(from as int, to as int);
    if to - from != other.len() {
        assert(ascii_lowercase(a).len() != ascii_lowercase(other@).len());
        return false;
    }
    let mut index: usize = 0;
    while index < other.len()
        invariant
            from <= to <= chars@.len(),
            to - from == other@.len(),
            a == chars@.subrange(from as int, to as int),
            0 <= index <= other@.len(),
            forall|i: int| 0 <= i < index ==> ascii_lower(#[trigger] a[i]) == ascii_lower(other@[i]),
        decreases other@.len() - index,
    {
        if to_ascii_lower(chars[from + index]) != to_ascii_lower(other[index]) {
            assert(ascii_lowercase(a)[index as int] != ascii_lowercase(other@)[index as int]);
            return false;
        }
        index = index + 1;
    }
    assert(ascii_lowercase(a) =~= ascii_lowercase(other@));
    true
}

/// Whether `chars[from..to]` is exactly `name`.
pub fn range_eq(chars: &Vec<char>, from: usize, to: usize, name: &[char]) -> (equal: bool)
    requires
        from <= to <= chars@.len(),
    ensures
        equal == (chars@.subrange(from as int, to as int) == name@),
{
    if to - from != name.len() {
        return false;
    }
    let mut index: usize = 0;
    while index < name.len()
        invariant
            from <= to <= chars@.len(),
            to - from == name@.len(),
            0 <= index <= name@.len(),
            forall|i: int| 0 <= i < index ==> chars@[from + i] == name@[i],
        decreases name@.len() - index,
    {
        if chars[from + index] != name[index] {
            assert(chars@.subrange(from as int, to as int)[index as int] != name@[index as int]);
            return false;
        }
        index = index + 1;
    }
    assert(chars@.subrange(from as int, to as int) =~= name@);
    true
}

/// Whether `chars[from..to]` starts with `prefix`.
pub fn range_starts_with(chars: &Vec<char>, from: usize, to: usize, prefix: &[char]) -> (result: bool)
    requires
        from <= to <= chars@.len(),
    ensures
        result == starts_with(chars@.subrange(from as int, to as int), prefix@),
{
    if to - from < prefix.len() {
        return false;
    }
    let result = range_eq(chars, from, from + prefix.len(), prefix);
    assert(chars@.subrange(from as int, to as int).subrange(0, prefix@.len() as int) =~= chars@.subrange(
        from as int,
        from + prefix@.len(),
    ));
    result
}

/// Index of the first `c` in `chars` at or after `from`, or the length.
pub fn find(chars: &Vec<char>, c: char, from: usize) -> (index: usize)
    requires
        from <= chars@.len(),
    ensures
        index == find_char(chars@, c, from as int),
        from <= index <= chars@.len(),
{
    let mut index = from;
    while index < chars.len() && chars[index] != c
        invariant
            from <= index <= chars@.len(),
            find_char(chars@, c, index as int) == find_char(chars@, c, from as int),
        decreases chars@.len() - index,
    {
        index = index + 1;
    }
    index
}

/// A `String` holding `s[from..to]`.
pub fn substring(s: &str, from: usize, to: usize) -> (result: String)
    requires
        from <= to <= s@.len(),
    ensures
        result@ == s@.subrange(from as int, to as int),
{
    s.substring_char(from, to).to_owned()
}

/// `chars[from..to]` in ASCII lower case.
pub fn ascii_lowercase_range(chars: &Vec<char>, from: usize, to: usize) -> (lower: Vec<char>)
    requires
        from <= to <= chars@.len(),
    ensures
        lower@ == ascii_lowercase(chars@.subrange(from as int, to as int)),
{
    let mut lower: Vec<char> = Vec::new();
    let mut index = from;
    while index < to
        invariant
            from <= index <= to <= chars@.len(),
            lower@ == ascii_lowercase(chars@.subrange(from as int, index as int)),
        decreases to - index,
    {
        lower.push(to_ascii_lower(chars[index]));
        assert(chars@.subrange(from as int, index + 1) =~= chars@.subrange(from as int, index as int).push(
            chars@[index as int],
        ));
        assert(lower@ =~= ascii_lowercase(chars@.subrange(from as int, index + 1)));
        index = index + 1;
    }
    lower
}

} // verus!
