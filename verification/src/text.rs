use vstd::prelude::*;
use vstd::string::StrSliceExecFns;
use crate::boot::push_char;

verus! {

/// Whether `c` is a white space character (the `White_Space` Unicode property, as tested by
/// `char::is_whitespace`).
pub open spec fn is_white_space(c: char) -> bool {
    c == ' ' || ('\t' <= c <= '\r') || c == '\u{85}' || c == '\u{A0}' || c == '\u{1680}' || (
    '\u{2000}' <= c <= '\u{200A}') || c == '\u{2028}' || c == '\u{2029}' || c == '\u{202F}' || c
        == '\u{205F}' || c == '\u{3000}'
}

/// `s` without its leading white space.
pub open spec fn trim_start(s: Seq<char>) -> Seq<char>
    decreases s.len(),
{
    if s.len() > 0 && is_white_space(s[0]) {
        trim_start(s.drop_first())
    } else {
        s
    }
}

/// `s` without its trailing white space.
pub open spec fn trim_end(s: Seq<char>) -> Seq<char>
    decreases s.len(),
{
    if s.len() > 0 && is_white_space(s.last()) {
        trim_end(s.drop_last())
    } else {
        s
    }
}

/// `s` without its leading and trailing white space.
pub open spec fn trim(s: Seq<char>) -> Seq<char> {
    trim_end(trim_start(s))
}

/// The end of the piece of `s` which starts at `i`: just after the next `separator`, or the end
/// of `s` if there is none (the pieces are those of `str::split_inclusive`).
pub open spec fn piece_end(s: Seq<char>, separator: char, i: int) -> int
    decreases s.len() - i,
{
    if i >= s.len() {
        s.len() as int
    } else if s[i] == separator {
        i + 1
    } else {
        piece_end(s, separator, i + 1)
    }
}

pub proof fn lemma_piece_end(s: Seq<char>, separator: char, i: int)
    requires
        0 <= i < s.len(),
    ensures
        i < piece_end(s, separator, i) <= s.len(),
    decreases s.len() - i,
{
    if s[i] != separator {
        if i + 1 < s.len() {
            lemma_piece_end(s, separator, i + 1);
        } else {
            assert(piece_end(s, separator, i + 1) == s.len());
        }
    }
}

/// Whether `c` is a white space character.
pub fn is_white_space_char(c: char) -> (r: bool)
    ensures
        r == is_white_space(c),
{
    c == ' ' || ('\t' <= c && c <= '\r') || c == '\u{85}' || c == '\u{A0}' || c == '\u{1680}' || (
    '\u{2000}' <= c && c <= '\u{200A}') || c == '\u{2028}' || c == '\u{2029}' || c == '\u{202F}'
        || c == '\u{205F}' || c == '\u{3000}'
}

/// The characters of `s`.
pub fn chars_of(s: &str) -> (r: Vec<char>)
    ensures
        r@ == s@,
{
    let n = s.unicode_len();
    let mut result: Vec<char> = Vec::new();
    let mut i: usize = 0;
    while i < n
        invariant
            n == s@.len(),
            i <= n,
            result@ == s@.take(i as int),
        decreases n - i,
    {
        result.push(s.get_char(i));
        i = i + 1;
        assert(result@ =~= s@.take(i as int));
    }
    assert(result@ =~= s@);
    result
}

/// Appends the characters `chars[from..to]` to `out`.
pub fn push_chars(out: &mut String, chars: &Vec<char>, from: usize, to: usize)
    requires
        from <= to <= chars@.len(),
    ensures
        final(out)@ == old(out)@ + chars@.subrange(from as int, to as int),
{
    let mut i = from;
    while i < to
        invariant
            from <= i <= to <= chars@.len(),
            out@ == old(out)@ + chars@.subrange(from as int, i as int),
        decreases to - i,
    {
        push_char(out, chars[i]);
        i = i + 1;
        assert(out@ =~= old(out)@ + chars@.subrange(from as int, i as int));
    }
}

/// Appends `s` to `out`.
pub fn push_str(out: &mut String, s: &str)
    ensures
        final(out)@ == old(out)@ + s@,
{
    let chars = chars_of(s);
    push_chars(out, &chars, 0, chars.len());
    assert(chars@.subrange(0, chars@.len() as int) =~= s@);
}

/// The string of the characters `chars[from..to]`.
pub fn string_of(chars: &Vec<char>, from: usize, to: usize) -> (r: String)
    requires
        from <= to <= chars@.len(),
    ensures
        r@ == chars@.subrange(from as int, to as int),
{
    let mut result = String::new();
    push_chars(&mut result, chars, from, to);
    assert(result@ =~= chars@.subrange(from as int, to as int));
    result
}

/// The end of the piece of `chars` which starts at `i` (see `piece_end`).
pub fn find_piece_end(chars: &Vec<char>, separator: char, i: usize) -> (r: usize)
    requires
        i <= chars@.len(),
    ensures
        r == piece_end(chars@, separator, i as int),
{
    let mut j = i;
    while j < chars.len() && chars[j] != separator
        invariant
            i <= j <= chars@.len(),
            piece_end(chars@, separator, i as int) == piece_end(chars@, separator, j as int),
        decreases chars@.len() - j,
    {
        j = j + 1;
    }
    if j < chars.len() {
        j + 1
    } else {
        j
    }
}

proof fn lemma_trim_start_from(s: Seq<char>, i: int)
    requires
        0 <= i <= s.len(),
        forall|k: int| 0 <= k < i ==> is_white_space(#[trigger] s[k]),
    ensures
        trim_start(s) == trim_start(s.subrange(i, s.len() as int)),
    decreases i,
{
    if i > 0 {
        lemma_trim_start_from(s.drop_first(), i - 1);
        assert(s.drop_first().subrange(i - 1, s.drop_first().len() as int) =~= s.subrange(
            i,
            s.len() as int,
        ));
    } else {
        assert(s.subrange(0, s.len() as int) =~= s);
    }
}

proof fn lemma_trim_end_to(s: Seq<char>, j: int)
    requires
        0 <= j <= s.len(),
        forall|k: int| j <= k < s.len() ==> is_white_space(#[trigger] s[k]),
    ensures
        trim_end(s) == trim_end(s.subrange(0, j)),
    decreases s.len() - j,
{
    if j < s.len() {
        lemma_trim_end_to(s.drop_last(), j);
        assert(s.drop_last().subrange(0, j) =~= s.subrange(0, j));
    } else {
        assert(s.subrange(0, j) =~= s);
    }
}

/// The bounds of the characters `chars[from..to]` without their leading and trailing white
/// space.
pub fn trim_bounds(chars: &Vec<char>, from: usize, to: usize) -> (r: (usize, usize))
    requires
        from <= to <= chars@.len(),
    ensures
        from <= r.0 <= r.1 <= to,
        chars@.subrange(r.0 as int, r.1 as int) == trim(chars@.subrange(from as int, to as int)),
{
    let ghost piece = chars@.subrange(from as int, to as int);
    let mut start = from;
    while start < to && is_white_space_char(chars[start])
        invariant
            from <= start <= to <= chars@.len(),
            forall|k: int| from <= k < start ==> is_white_space(#[trigger] chars@[k]),
        decreases to - start,
    {
        start = start + 1;
    }
    let mut end = to;
    while end > start && is_white_space_char(chars[end - 1])
        invariant
            from <= start <= end <= to <= chars@.len(),
            forall|k: int| end <= k < to ==> is_white_space(#[trigger] chars@[k]),
        decreases end,
    {
        end = end - 1;
    }
    proof {
        lemma_trim_start_from(piece, start - from);
        let rest = piece.subrange(start - from, piece.len() as int);
        assert(rest =~= chars@.subrange(start as int, to as int));
        assert(trim_start(rest) == rest);
        lemma_trim_end_to(rest, end - start);
        assert(rest.subrange(0, end - start) =~= chars@.subrange(start as int, end as int));
        let t = chars@.subrange(start as int, end as int);
        assert(t.len() == 0 || !is_white_space(t.last()));
        assert(trim(piece) == t);
    }
    (start, end)
}

/// Whether the characters `chars[from..to]`, without their leading and trailing white space,
/// are `s`.
pub fn trimmed_equals(chars: &Vec<char>, from: usize, to: usize, s: &str) -> (r: bool)
    requires
        from <= to <= chars@.len(),
    ensures
        r == (trim(chars@.subrange(from as int, to as int)) == s@),
{
    let (start, end) = trim_bounds(chars, from, to);
    let n = s.unicode_len();
    if n != end - start {
        return false;
    }
    let mut i: usize = 0;
    while i < n
        invariant
            n == s@.len(),
            n == end - start,
            start <= end <= chars@.len(),
            i <= n,
            trim(chars@.subrange(from as int, to as int)) == chars@.subrange(start as int, end as int),
            forall|k: int| 0 <= k < i ==> chars@[start + k] == s@[k],
        decreases n - i,
    {
        if chars[start + i] != s.get_char(i) {
            assert(chars@.subrange(start as int, end as int)[i as int] != s@[i as int]);
            return false;
        }
        i = i + 1;
    }
    assert(chars@.subrange(start as int, end as int) =~= s@);
    true
}

} // verus!
