//! Text primitives, each proved against a statement over the string's
//! characters.

use vstd::prelude::*;
use vstd::string::*;
use vstd::utf8::*;

verus! {

/// `String::push` of the standard library appends the given character to
/// the end of the string, and leaves what was there as it was.
pub assume_specification[ String::push ](s: &mut String, c: char)
    ensures
        final(s)@ == old(s)@.push(c),
;

/// The characters of a text that may be absent.
pub open spec fn text_of(value: Option<String>) -> Option<Seq<char>> {
    match value {
        Some(text) => Some(text@),
        None => None,
    }
}

/// A copy of a text that may be absent.
pub fn copy_text(value: &Option<String>) -> (out: Option<String>)
    ensures
        text_of(out) == text_of(*value),
{
    match value {
        Some(text) => Some(text.clone()),
        None => None,
    }
}

/// A string of its own with the characters of `s`.
pub fn owned(s: &str) -> (out: String)
    ensures
        out@ == s@,
{
    String::from_str(s)
}

/// Whether two strings hold the same characters.
pub fn same_text(a: &str, b: &str) -> (same: bool)
    ensures
        same == (a@ == b@),
{
    let x = a.as_bytes();
    let y = b.as_bytes();
    proof {
        encode_utf8_decode_utf8(a@);
        encode_utf8_decode_utf8(b@);
    }
    if x.len() != y.len() {
        return false;
    }
    let mut i: usize = 0;
    while i < x.len()
        invariant
            x@.len() == y@.len(),
            i <= x@.len(),
            forall|k: int| 0 <= k < i ==> x@[k] == y@[k],
            x@ == a.spec_bytes(),
            y@ == b.spec_bytes(),
            decode_utf8(a.spec_bytes()) == a@,
            decode_utf8(b.spec_bytes()) == b@,
        decreases x@.len() - i,
    {
        if x[i] != y[i] {
            return false;
        }
        i = i + 1;
    }
    assert(x@ =~= y@);
    true
}

/// The characters of a string, one by one.
pub fn chars_of(s: &str) -> (out: Vec<char>)
    ensures
        out@ == s@,
{
    broadcast use vstd::string::group_string_axioms;

    let mut out: Vec<char> = Vec::new();
    for c in it: s.chars()
        invariant
            it.seq() == s@,
            out@ == it.seq().take(it.index() as int),
    {
        out.push(c);
    }
    out
}

/// The string made of the characters `chars[from..to]`.
pub fn string_of(chars: &Vec<char>, from: usize, to: usize) -> (out: String)
    requires
        from <= to <= chars@.len(),
    ensures
        out@ == chars@.subrange(from as int, to as int),
{
    let mut out = String::new();
    let mut i: usize = from;
    while i < to
        invariant
            from <= i <= to <= chars@.len(),
            out@ == chars@.subrange(from as int, i as int),
        decreases to - i,
    {
        out.push(chars[i]);
        i = i + 1;
    }
    out
}

/// White space as Unicode defines it: the characters that the standard
/// library's trimming and word splitting skip.
pub open spec fn is_space(c: char) -> bool {
    let n = c as u32;
    ||| 0x09 <= n <= 0x0d
    ||| n == 0x20
    ||| n == 0x85
    ||| n == 0xa0
    ||| n == 0x1680
    ||| 0x2000 <= n <= 0x200a
    ||| n == 0x2028
    ||| n == 0x2029
    ||| n == 0x202f
    ||| n == 0x205f
    ||| n == 0x3000
}

pub fn is_whitespace(c: char) -> (space: bool)
    ensures
        space == is_space(c),
{
    let n = c as u32;
    (0x09 <= n && n <= 0x0d) || n == 0x20 || n == 0x85 || n == 0xa0 || n == 0x1680 || (0x2000 <= n
        && n <= 0x200a) || n == 0x2028 || n == 0x2029 || n == 0x202f || n == 0x205f || n == 0x3000
}

/// `s` without its leading white space.
pub open spec fn trimmed_start(s: Seq<char>) -> Seq<char>
    decreases s.len(),
{
    if s.len() > 0 && is_space(s[0]) {
        trimmed_start(s.drop_first())
    } else {
        s
    }
}

/// `s` without its trailing white space.
pub open spec fn trimmed_end(s: Seq<char>) -> Seq<char>
    decreases s.len(),
{
    if s.len() > 0 && is_space(s.last()) {
        trimmed_end(s.drop_last())
    } else {
        s
    }
}

/// `s` without white space at either end.
pub open spec fn trimmed(s: Seq<char>) -> Seq<char> {
    trimmed_end(trimmed_start(s))
}

/// Index of the first character of `chars[from..to]` that is no white
/// space, or `to`.
fn skip_space(chars: &Vec<char>, from: usize, to: usize) -> (at: usize)
    requires
        from <= to <= chars@.len(),
    ensures
        from <= at <= to,
        trimmed_start(chars@.subrange(from as int, to as int)) == chars@.subrange(
            at as int,
            to as int,
        ),
{
    let mut i: usize = from;
    while i < to && is_whitespace(chars[i])
        invariant
            from <= i <= to <= chars@.len(),
            trimmed_start(chars@.subrange(from as int, to as int)) == trimmed_start(
                chars@.subrange(i as int, to as int),
            ),
        decreases to - i,
    {
        assert(chars@.subrange(i as int, to as int).drop_first() =~= chars@.subrange(
            i + 1,
            to as int,
        ));
        i = i + 1;
    }
    i
}

/// Index just past the last character of `chars[from..to]` that is no
/// white space, or `from`.
fn skip_space_back(chars: &Vec<char>, from: usize, to: usize) -> (at: usize)
    requires
        from <= to <= chars@.len(),
    ensures
        from <= at <= to,
        trimmed_end(chars@.subrange(from as int, to as int)) == chars@.subrange(
            from as int,
            at as int,
        ),
{
    let mut i: usize = to;
    while i > from && is_whitespace(chars[i - 1])
        invariant
            from <= i <= to <= chars@.len(),
            trimmed_end(chars@.subrange(from as int, to as int)) == trimmed_end(
                chars@.subrange(from as int, i as int),
            ),
        decreases i - from,
    {
        assert(chars@.subrange(from as int, i as int).drop_last() =~= chars@.subrange(
            from as int,
            i - 1,
        ));
        i = i - 1;
    }
    i
}

/// The bounds of `chars[from..to]` without white space at either end.
pub fn trim_bounds(chars: &Vec<char>, from: usize, to: usize) -> (bounds: (usize, usize))
    requires
        from <= to <= chars@.len(),
    ensures
        from <= bounds.0 <= bounds.1 <= to,
        chars@.subrange(bounds.0 as int, bounds.1 as int) == trimmed(
            chars@.subrange(from as int, to as int),
        ),
{
    let start = skip_space(chars, from, to);
    let end = skip_space_back(chars, start, to);
    (start, end)
}

/// `s` without white space at either end.
pub fn trim(s: &str) -> (out: String)
    ensures
        out@ == trimmed(s@),
{
    let chars = chars_of(s);
    assert(chars@.subrange(0, chars@.len() as int) =~= chars@);
    let (start, end) = trim_bounds(&chars, 0, chars.len());
    string_of(&chars, start, end)
}

/// `s` without its trailing white space.
pub fn trim_end(s: &str) -> (out: String)
    ensures
        out@ == trimmed_end(s@),
{
    let chars = chars_of(s);
    assert(chars@.subrange(0, chars@.len() as int) =~= chars@);
    let end = skip_space_back(&chars, 0, chars.len());
    string_of(&chars, 0, end)
}

/// Trimming leaves no white space at either end, and takes away nothing
/// else: the result is a stretch of the input, and what lies before and
/// after it is white space.
pub proof fn lemma_trimmed_is_tight(s: Seq<char>)
    ensures
        trimmed(s).len() > 0 ==> !is_space(trimmed(s)[0]) && !is_space(trimmed(s).last()),
        trimmed(s).len() <= s.len(),
        trimmed(trimmed(s)) == trimmed(s),
{
    lemma_trimmed_start_shape(s);
    lemma_trimmed_end_shape(trimmed_start(s));
}

proof fn lemma_trimmed_start_shape(s: Seq<char>)
    ensures
        trimmed_start(s).len() <= s.len(),
        trimmed_start(s) == s.skip(s.len() - trimmed_start(s).len()),
        trimmed_start(s).len() > 0 ==> !is_space(trimmed_start(s)[0]),
        forall|i: int| 0 <= i < s.len() - trimmed_start(s).len() ==> is_space(s[i]),
    decreases s.len(),
{
    if s.len() > 0 && is_space(s[0]) {
        let rest = s.drop_first();
        lemma_trimmed_start_shape(rest);
        assert forall|i: int| 0 <= i < s.len() - trimmed_start(s).len() implies is_space(s[i]) by {
            if i > 0 {
                assert(s[i] == rest[i - 1]);
            }
        }
    }
}

proof fn lemma_trimmed_end_shape(s: Seq<char>)
    ensures
        trimmed_end(s).len() <= s.len(),
        trimmed_end(s) == s.take(trimmed_end(s).len() as int),
        trimmed_end(s).len() > 0 ==> !is_space(trimmed_end(s).last()),
        forall|i: int| trimmed_end(s).len() <= i < s.len() ==> is_space(s[i]),
    decreases s.len(),
{
    if s.len() > 0 && is_space(s.last()) {
        let rest = s.drop_last();
        lemma_trimmed_end_shape(rest);
        assert forall|i: int| trimmed_end(s).len() <= i < s.len() implies is_space(s[i]) by {
            if i < rest.len() {
                assert(s[i] == rest[i]);
            }
        }
    }
}

/// The texts of a list of strings.
pub open spec fn texts(list: Seq<String>) -> Seq<Seq<char>> {
    Seq::new(list.len(), |i: int| list[i]@)
}

/// A piece that is being collected, if it holds anything.
pub open spec fn flush(current: Seq<char>) -> Seq<Seq<char>> {
    if current.len() > 0 {
        seq![current]
    } else {
        Seq::empty()
    }
}

/// The words of `s` when `current` is the word collected so far: a word
/// ends at white space and at the end of the text.
pub open spec fn words_from(s: Seq<char>, current: Seq<char>) -> Seq<Seq<char>>
    decreases s.len(),
{
    if s.len() == 0 {
        flush(current)
    } else if is_space(s[0]) {
        flush(current) + words_from(s.drop_first(), Seq::empty())
    } else {
        words_from(s.drop_first(), current.push(s[0]))
    }
}

/// The maximal stretches of `s` without white space, in order.
pub open spec fn words(s: Seq<char>) -> Seq<Seq<char>> {
    words_from(s, Seq::empty())
}

/// The words of `s`: what stands between white space.
pub fn split_whitespace(s: &str) -> (out: Vec<String>)
    ensures
        texts(out@) == words(s@),
{
    let chars = chars_of(s);
    let mut out: Vec<String> = Vec::new();
    let mut start: usize = 0;
    let mut i: usize = 0;
    assert(chars@.skip(0) =~= chars@);
    assert(chars@.subrange(0, 0) =~= Seq::<char>::empty());
    while i < chars.len()
        invariant
            start <= i <= chars@.len(),
            chars@ == s@,
            words(s@) == texts(out@) + words_from(
                chars@.skip(i as int),
                chars@.subrange(start as int, i as int),
            ),
        decreases chars@.len() - i,
    {
        let ghost rest = chars@.skip(i as int);
        let ghost current = chars@.subrange(start as int, i as int);
        assert(rest.drop_first() =~= chars@.skip(i + 1));
        if is_whitespace(chars[i]) {
            if start < i {
                let word = string_of(&chars, start, i);
                out.push(word);
            }
            start = i + 1;
            assert(chars@.subrange(start as int, i + 1) =~= Seq::<char>::empty());
        } else {
            assert(current.push(rest[0]) =~= chars@.subrange(start as int, i + 1));
        }
        i = i + 1;
    }
    if start < i {
        let word = string_of(&chars, start, i);
        out.push(word);
    }
    out
}

/// A line without the carriage return that stood before its line feed.
pub open spec fn without_cr(line: Seq<char>) -> Seq<char> {
    if line.len() > 0 && line.last() == '\r' {
        line.drop_last()
    } else {
        line
    }
}

/// The lines of `s` when `current` is the line collected so far.
pub open spec fn lines_from(s: Seq<char>, current: Seq<char>) -> Seq<Seq<char>>
    decreases s.len(),
{
    if s.len() == 0 {
        flush(current)
    } else if s[0] == '\n' {
        seq![without_cr(current)] + lines_from(s.drop_first(), Seq::empty())
    } else {
        lines_from(s.drop_first(), current.push(s[0]))
    }
}

/// The lines of `s`. A line ends at a line feed, or at a carriage return
/// with a line feed behind it; the ending is no part of the line, and the
/// last line needs none.
pub open spec fn lines_of(s: Seq<char>) -> Seq<Seq<char>> {
    lines_from(s, Seq::empty())
}

/// The lines of `s`, without their line endings.
pub fn lines(s: &str) -> (out: Vec<String>)
    ensures
        texts(out@) == lines_of(s@),
{
    let chars = chars_of(s);
    let mut out: Vec<String> = Vec::new();
    let mut start: usize = 0;
    let mut i: usize = 0;
    assert(chars@.skip(0) =~= chars@);
    assert(chars@.subrange(0, 0) =~= Seq::<char>::empty());
    while i < chars.len()
        invariant
            start <= i <= chars@.len(),
            chars@ == s@,
            lines_of(s@) == texts(out@) + lines_from(
                chars@.skip(i as int),
                chars@.subrange(start as int, i as int),
            ),
        decreases chars@.len() - i,
    {
        let ghost rest = chars@.skip(i as int);
        let ghost current = chars@.subrange(start as int, i as int);
        assert(rest.drop_first() =~= chars@.skip(i + 1));
        if chars[i] == '\n' {
            let end = if start < i && chars[i - 1] == '\r' {
                i - 1
            } else {
                i
            };
            let line = string_of(&chars, start, end);
            assert(line@ =~= without_cr(current));
            out.push(line);
            start = i + 1;
            assert(chars@.subrange(start as int, i + 1) =~= Seq::<char>::empty());
        } else {
            assert(current.push(rest[0]) =~= chars@.subrange(start as int, i + 1));
        }
        i = i + 1;
    }
    if start < i {
        let line = string_of(&chars, start, i);
        out.push(line);
    }
    out
}

/// The pieces of `s` between separators when `current` is the piece
/// collected so far.
pub open spec fn pieces_from(s: Seq<char>, separator: char, current: Seq<char>) -> Seq<Seq<char>>
    decreases s.len(),
{
    if s.len() == 0 {
        seq![current]
    } else if s[0] == separator {
        seq![current] + pieces_from(s.drop_first(), separator, Seq::empty())
    } else {
        pieces_from(s.drop_first(), separator, current.push(s[0]))
    }
}

/// What stands before, between and after the separators in `s`: always
/// one piece more than there are separators.
pub open spec fn pieces(s: Seq<char>, separator: char) -> Seq<Seq<char>> {
    pieces_from(s, separator, Seq::empty())
}

/// The pieces of `s` between the occurrences of `separator`.
pub fn split(s: &str, separator: char) -> (out: Vec<String>)
    ensures
        texts(out@) == pieces(s@, separator),
{
    let chars = chars_of(s);
    let mut out: Vec<String> = Vec::new();
    let mut start: usize = 0;
    let mut i: usize = 0;
    assert(chars@.skip(0) =~= chars@);
    assert(chars@.subrange(0, 0) =~= Seq::<char>::empty());
    while i < chars.len()
        invariant
            start <= i <= chars@.len(),
            chars@ == s@,
            pieces(s@, separator) == texts(out@) + pieces_from(
                chars@.skip(i as int),
                separator,
                chars@.subrange(start as int, i as int),
            ),
        decreases chars@.len() - i,
    {
        let ghost rest = chars@.skip(i as int);
        let ghost current = chars@.subrange(start as int, i as int);
        assert(rest.drop_first() =~= chars@.skip(i + 1));
        if chars[i] == separator {
            let piece = string_of(&chars, start, i);
            out.push(piece);
            start = i + 1;
            assert(chars@.subrange(start as int, i + 1) =~= Seq::<char>::empty());
        } else {
            assert(current.push(rest[0]) =~= chars@.subrange(start as int, i + 1));
        }
        i = i + 1;
    }
    let piece = string_of(&chars, start, i);
    out.push(piece);
    out
}

/// Whether `needle` stands in `s` at index `at`.
pub open spec fn occurs_at(s: Seq<char>, needle: Seq<char>, at: int) -> bool {
    0 <= at && at + needle.len() <= s.len() && s.subrange(at, at + needle.len()) == needle
}

/// The first index from `from` on at which `needle` stands in `s`.
pub open spec fn found_from(s: Seq<char>, needle: Seq<char>, from: int) -> Option<int>
    decreases s.len() + 1 - from,
{
    if from < 0 || from + needle.len() > s.len() {
        None
    } else if occurs_at(s, needle, from) {
        Some(from)
    } else {
        found_from(s, needle, from + 1)
    }
}

/// The first index at which `needle` stands in `s`.
pub open spec fn found(s: Seq<char>, needle: Seq<char>) -> Option<int> {
    found_from(s, needle, 0)
}

/// What a search returns is the first occurrence, and it returns nothing
/// only where there is none.
pub proof fn lemma_found_is_first(s: Seq<char>, needle: Seq<char>, from: int)
    requires
        0 <= from,
    ensures
        match found_from(s, needle, from) {
            Some(at) => from <= at && occurs_at(s, needle, at) && forall|k: int|
                from <= k < at ==> !occurs_at(s, needle, k),
            None => forall|k: int| from <= k ==> !occurs_at(s, needle, k),
        },
    decreases s.len() + 1 - from,
{
    if from + needle.len() <= s.len() && !occurs_at(s, needle, from) {
        lemma_found_is_first(s, needle, from + 1);
    }
}

fn matches_at(chars: &Vec<char>, needle: &Vec<char>, at: usize) -> (hit: bool)
    requires
        at + needle@.len() <= chars@.len(),
    ensures
        hit == occurs_at(chars@, needle@, at as int),
{
    let total = chars.len();
    let mut k: usize = 0;
    while k < needle.len()
        invariant
            k <= needle@.len(),
            at + needle@.len() <= chars@.len() == total,
            forall|j: int| 0 <= j < k ==> chars@[at + j] == needle@[j],
        decreases needle@.len() - k,
    {
        if chars[at + k] != needle[k] {
            return false;
        }
        k = k + 1;
    }
    assert(chars@.subrange(at as int, at + needle@.len()) =~= needle@);
    true
}

fn find_in(chars: &Vec<char>, needle: &Vec<char>) -> (at: Option<usize>)
    ensures
        match at {
            Some(i) => found(chars@, needle@) == Some(i as int) && i + needle@.len()
                <= chars@.len(),
            None => found(chars@, needle@) is None,
        },
{
    if needle.len() > chars.len() {
        return None;
    }
    let last = chars.len() - needle.len();
    let mut i: usize = 0;
    loop
        invariant
            i <= last,
            last == chars@.len() - needle@.len(),
            found(chars@, needle@) == found_from(chars@, needle@, i as int),
        decreases last - i,
    {
        if matches_at(chars, needle, i) {
            return Some(i);
        }
        if i == last {
            return None;
        }
        i = i + 1;
    }
}

/// The index of the first character of the first occurrence of `needle`
/// in `s`, counted in characters.
pub fn find(s: &str, needle: &str) -> (at: Option<usize>)
    ensures
        match at {
            Some(i) => found(s@, needle@) == Some(i as int) && i + needle@.len() <= s@.len()
                <= usize::MAX,
            None => found(s@, needle@) is None,
        },
{
    let chars = chars_of(s);
    let pattern = chars_of(needle);
    let total = chars.len();
    assert(s@.len() == total);
    find_in(&chars, &pattern)
}

/// Whether `needle` stands somewhere in `s`.
pub fn contains(s: &str, needle: &str) -> (hit: bool)
    ensures
        hit == found(s@, needle@) is Some,
{
    find(s, needle).is_some()
}

/// Whether `s` begins with `prefix`.
pub fn starts_with(s: &str, prefix: &str) -> (hit: bool)
    ensures
        hit == prefix@.is_prefix_of(s@),
{
    let chars = chars_of(s);
    let pattern = chars_of(prefix);
    if pattern.len() > chars.len() {
        return false;
    }
    let hit = matches_at(&chars, &pattern, 0);
    hit
}

/// Whether `s` ends with `suffix`.
pub fn ends_with(s: &str, suffix: &str) -> (hit: bool)
    ensures
        hit == suffix@.is_suffix_of(s@),
{
    let chars = chars_of(s);
    let pattern = chars_of(suffix);
    if pattern.len() > chars.len() {
        return false;
    }
    let at = chars.len() - pattern.len();
    let hit = matches_at(&chars, &pattern, at);
    hit
}

/// What follows the first `skip` characters of `s`; nothing if `s` is
/// shorter.
pub open spec fn after(s: Seq<char>, skip: int) -> Seq<char> {
    if 0 <= skip <= s.len() {
        s.skip(skip)
    } else {
        Seq::empty()
    }
}

/// `s` from the character with index `skip` on.
pub fn tail(s: &str, skip: usize) -> (out: String)
    ensures
        out@ == after(s@, skip as int),
{
    let chars = chars_of(s);
    if skip > chars.len() {
        return String::new();
    }
    let out = string_of(&chars, skip, chars.len());
    out
}

/// The first `count` characters of `s`; all of `s` if it is shorter.
pub fn head(s: &str, count: usize) -> (out: String)
    ensures
        out@ == if count <= s@.len() {
            s@.take(count as int)
        } else {
            s@
        },
{
    let chars = chars_of(s);
    let end = if count <= chars.len() {
        count
    } else {
        chars.len()
    };
    let out = string_of(&chars, 0, end);
    out
}

/// `a` followed by `b`.
pub fn join(a: &str, b: &str) -> (out: String)
    ensures
        out@ == a@ + b@,
{
    let mut out = String::new();
    out.append(a);
    out.append(b);
    out
}

} // verus!
