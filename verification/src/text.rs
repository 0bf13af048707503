//! Text building blocks: character access, decimal rendering and joining,
//! each stated over `Seq<char>`.

use vstd::prelude::*;

verus! {

/// `String::push` of the standard library appends one character to the end
/// of the string and leaves what was there untouched.
pub assume_specification[ String::push ](s: &mut String, ch: char)
    ensures
        final(s)@ == old(s)@.push(ch),
;

/// The ten decimal digits, in order.
pub const DIGITS: [char; 10] = ['0', '1', '2', '3', '4', '5', '6', '7', '8', '9'];

/// The characters of `s` as a vector.
pub fn chars_of(s: &str) -> (r: Vec<char>)
    ensures
        r@ == s@,
{
    let n: usize = s.unicode_len();
    let mut out: Vec<char> = Vec::new();
    let mut i: usize = 0;
    while i < n
        invariant
            n == s@.len(),
            i <= n,
            out@ == s@.take(i as int),
        decreases n - i,
    {
        out.push(s.get_char(i));
        i = i + 1;
    }
    out
}

/// Appends `chars[from..to]` to `out`.
pub fn push_range(out: &mut String, chars: &Vec<char>, from: usize, to: usize)
    requires
        from <= to <= chars.len(),
    ensures
        final(out)@ == old(out)@ + chars@.subrange(from as int, to as int),
{
    let mut i: usize = from;
    while i < to
        invariant
            from <= i <= to <= chars.len(),
            out@ == old(out)@ + chars@.subrange(from as int, i as int),
        decreases to - i,
    {
        out.push(chars[i]);
        i = i + 1;
    }
}

/// The string made of `chars[from..to]`.
pub fn string_of_range(chars: &Vec<char>, from: usize, to: usize) -> (r: String)
    requires
        from <= to <= chars.len(),
    ensures
        r@ == chars@.subrange(from as int, to as int),
{
    let mut out = String::new();
    push_range(&mut out, chars, from, to);
    out
}

/// The string made of all of `chars`.
pub fn string_of(chars: &Vec<char>) -> (r: String)
    ensures
        r@ == chars@,
{
    string_of_range(chars, 0, chars.len())
}

/// Decimal notation of `n`, most significant digit first, without leading zeros.
pub open spec fn decimal(n: nat) -> Seq<char>
    decreases n,
{
    if n < 10 {
        seq![DIGITS@[n as int]]
    } else {
        decimal(n / 10).push(DIGITS@[(n % 10) as int])
    }
}

/// Appends the decimal notation of `n` to `out`.
pub fn push_decimal(out: &mut String, n: u128)
    ensures
        final(out)@ == old(out)@ + decimal(n as nat),
    decreases n,
{
    if n >= 10 {
        push_decimal(out, n / 10);
    }
    out.push(DIGITS[(n % 10) as usize]);
}

/// `prefix`, then the decimal notation of `n`.
pub fn labelled_number(prefix: &str, n: u128) -> (r: String)
    ensures
        r@ == prefix@ + decimal(n as nat),
{
    let mut out = String::from_str(prefix);
    push_decimal(&mut out, n);
    out
}

/// The parts in order, with `sep` between each two neighbours.
pub open spec fn join(parts: Seq<Seq<char>>, sep: Seq<char>) -> Seq<char>
    decreases parts.len(),
{
    if parts.len() == 0 {
        Seq::empty()
    } else if parts.len() == 1 {
        parts[0]
    } else {
        join(parts.drop_last(), sep) + sep + parts.last()
    }
}

/// The views of a vector of strings.
pub open spec fn views(parts: Seq<String>) -> Seq<Seq<char>> {
    parts.map_values(|s: String| s@)
}

/// Joins `parts` with `sep` between them.
pub fn join_strings(parts: &Vec<String>, sep: &str) -> (r: String)
    ensures
        r@ == join(views(parts@), sep@),
{
    let mut out = String::new();
    let mut i: usize = 0;
    while i < parts.len()
        invariant
            i <= parts.len(),
            out@ == join(views(parts@).take(i as int), sep@),
        decreases parts.len() - i,
    {
        proof {
            let before = views(parts@).take(i as int);
            let after = views(parts@).take(i + 1);
            assert(after.drop_last() == before);
            assert(after.last() == parts@[i as int]@);
            if i == 0 {
                assert(before.len() == 0);
            }
        }
        if i > 0 {
            out.append(sep);
        }
        out.append(parts[i].as_str());
        i = i + 1;
    }
    proof {
        assert(views(parts@).take(parts.len() as int) == views(parts@));
    }
    out
}

/// `s` has `pattern` at position `at`.
pub open spec fn matches_at(s: Seq<char>, at: int, pattern: Seq<char>) -> bool {
    0 <= at && at + pattern.len() <= s.len() && s.subrange(at, at + pattern.len()) == pattern
}

/// `s` begins with `prefix`.
pub open spec fn starts_with(s: Seq<char>, prefix: Seq<char>) -> bool {
    matches_at(s, 0, prefix)
}

/// `s` ends with `suffix`.
pub open spec fn ends_with(s: Seq<char>, suffix: Seq<char>) -> bool {
    matches_at(s, s.len() - suffix.len(), suffix)
}

/// `needle` occurs somewhere in `s`.
pub open spec fn contains(s: Seq<char>, needle: Seq<char>) -> bool {
    exists|at: int| matches_at(s, at, needle)
}

/// Whether `chars` has `pattern` at position `at`.
pub fn has_at(chars: &Vec<char>, at: usize, pattern: &Vec<char>) -> (r: bool)
    ensures
        r == matches_at(chars@, at as int, pattern@),
{
    if pattern.len() > chars.len() || at > chars.len() - pattern.len() {
        return false;
    }
    let mut k: usize = 0;
    while k < pattern.len()
        invariant
            k <= pattern.len(),
            at + pattern.len() <= chars.len(),
            chars@.subrange(at as int, at + k) == pattern@.take(k as int),
        decreases pattern.len() - k,
    {
        if chars[at + k] != pattern[k] {
            proof {
                let window = chars@.subrange(at as int, at + pattern.len());
                assert(window[k as int] != pattern@[k as int]);
            }
            return false;
        }
        assert(chars@.subrange(at as int, at + k + 1) =~= pattern@.take(k + 1));
        k = k + 1;
    }
    assert(pattern@.take(pattern.len() as int) =~= pattern@);
    true
}

/// Whether `pattern` occurs somewhere in `chars`.
pub fn contains_chars(chars: &Vec<char>, pattern: &Vec<char>) -> (r: bool)
    ensures
        r == contains(chars@, pattern@),
{
    if pattern.len() > chars.len() {
        return false;
    }
    let last: usize = chars.len() - pattern.len();
    let mut at: usize = 0;
    while at < last
        invariant
            at <= last,
            last == chars.len() - pattern.len(),
            forall|j: int| 0 <= j < at ==> !matches_at(chars@, j, pattern@),
        decreases last - at,
    {
        if has_at(chars, at, pattern) {
            return true;
        }
        at = at + 1;
    }
    has_at(chars, last, pattern)
}

/// White space as Unicode has it: the characters with the `White_Space` property.
pub open spec fn is_whitespace(c: char) -> bool {
    ||| '\u{9}' <= c <= '\u{d}'
    ||| c == ' '
    ||| c == '\u{85}'
    ||| c == '\u{a0}'
    ||| c == '\u{1680}'
    ||| '\u{2000}' <= c <= '\u{200a}'
    ||| c == '\u{2028}'
    ||| c == '\u{2029}'
    ||| c == '\u{202f}'
    ||| c == '\u{205f}'
    ||| c == '\u{3000}'
}

/// Whether `c` is white space.
pub fn char_is_whitespace(c: char) -> (r: bool)
    ensures
        r == is_whitespace(c),
{
    ('\u{9}' <= c && c <= '\u{d}') || c == ' ' || c == '\u{85}' || c == '\u{a0}' || c
        == '\u{1680}' || ('\u{2000}' <= c && c <= '\u{200a}') || c == '\u{2028}' || c
        == '\u{2029}' || c == '\u{202f}' || c == '\u{205f}' || c == '\u{3000}'
}

/// `s` without the white space at its start.
pub open spec fn trim_start(s: Seq<char>) -> Seq<char>
    decreases s.len(),
{
    if s.len() > 0 && is_whitespace(s[0]) {
        trim_start(s.skip(1))
    } else {
        s
    }
}

/// `s` without the white space at its end.
pub open spec fn trim_end(s: Seq<char>) -> Seq<char>
    decreases s.len(),
{
    if s.len() > 0 && is_whitespace(s.last()) {
        trim_end(s.drop_last())
    } else {
        s
    }
}

/// `s` without the white space at either end.
pub open spec fn trim(s: Seq<char>) -> Seq<char> {
    trim_end(trim_start(s))
}

/// Cutting the white space at the start of `s` leaves `s[start..]`, given
/// that `start` is where the first other character stands.
pub proof fn lemma_trim_start(s: Seq<char>, start: int)
    requires
        0 <= start <= s.len(),
        forall|k: int| 0 <= k < start ==> is_whitespace(s[k]),
        start < s.len() ==> !is_whitespace(s[start]),
    ensures
        trim_start(s) == s.skip(start),
    decreases s.len(),
{
    if start > 0 {
        lemma_trim_start(s.skip(1), start - 1);
        assert(s.skip(1).skip(start - 1) =~= s.skip(start));
    } else {
        assert(s.skip(0) =~= s);
    }
}

/// Cutting the white space at the end of `s` leaves `s[..end]`, given that
/// `end` is just behind the last other character.
pub proof fn lemma_trim_end(s: Seq<char>, end: int)
    requires
        0 <= end <= s.len(),
        forall|k: int| end <= k < s.len() ==> is_whitespace(s[k]),
        end > 0 ==> !is_whitespace(s[end - 1]),
    ensures
        trim_end(s) == s.take(end),
    decreases s.len(),
{
    if end < s.len() {
        lemma_trim_end(s.drop_last(), end);
        assert(s.drop_last().take(end) =~= s.take(end));
    } else {
        assert(s.take(end) =~= s);
    }
}

/// `chars` without the white space at either end.
pub fn trim_chars(chars: &Vec<char>) -> (r: Vec<char>)
    ensures
        r@ == trim(chars@),
{
    let mut start: usize = 0;
    while start < chars.len() && char_is_whitespace(chars[start])
        invariant
            start <= chars.len(),
            forall|k: int| 0 <= k < start ==> is_whitespace(chars@[k]),
        decreases chars.len() - start,
    {
        start = start + 1;
    }
    let mut end: usize = chars.len();
    while end > start && char_is_whitespace(chars[end - 1])
        invariant
            start <= end <= chars.len(),
            forall|k: int| end <= k < chars.len() ==> is_whitespace(chars@[k]),
        decreases end,
    {
        end = end - 1;
    }
    proof {
        lemma_trim_start(chars@, start as int);
        let rest = chars@.skip(start as int);
        lemma_trim_end(rest, end - start);
        assert(rest.take(end - start) =~= chars@.subrange(start as int, end as int));
    }
    let mut out: Vec<char> = Vec::new();
    let mut i: usize = start;
    while i < end
        invariant
            start <= i <= end <= chars.len(),
            out@ == chars@.subrange(start as int, i as int),
        decreases end - i,
    {
        out.push(chars[i]);
        assert(out@ =~= chars@.subrange(start as int, i + 1));
        i = i + 1;
    }
    out
}

/// `s` without the white space at either end.
pub fn trim_str(s: &str) -> (r: String)
    ensures
        r@ == trim(s@),
{
    let chars = chars_of(s);
    let trimmed = trim_chars(&chars);
    string_of(&trimmed)
}

/// What follows the last white space of `s`; all of `s` if it has none.
pub open spec fn after_last_whitespace(s: Seq<char>) -> Seq<char>
    decreases s.len(),
{
    if s.len() == 0 || is_whitespace(s.last()) {
        Seq::empty()
    } else {
        after_last_whitespace(s.drop_last()).push(s.last())
    }
}

/// The last run of characters of `s` that are no white space; empty if `s`
/// holds nothing but white space.
pub open spec fn last_word(s: Seq<char>) -> Seq<char> {
    after_last_whitespace(trim_end(s))
}

/// What follows the last white space of `s` is `s[start..]`, given that
/// `start` is just behind it.
pub proof fn lemma_after_last_whitespace(s: Seq<char>, start: int)
    requires
        0 <= start <= s.len(),
        forall|k: int| start <= k < s.len() ==> !is_whitespace(s[k]),
        start > 0 ==> is_whitespace(s[start - 1]),
    ensures
        after_last_whitespace(s) == s.skip(start),
    decreases s.len(),
{
    if start < s.len() {
        lemma_after_last_whitespace(s.drop_last(), start);
        assert(s.drop_last().skip(start).push(s.last()) =~= s.skip(start));
    } else {
        assert(s.skip(start) =~= Seq::<char>::empty());
    }
}

/// The last word of `chars`.
pub fn last_word_of(chars: &Vec<char>) -> (r: Vec<char>)
    ensures
        r@ == last_word(chars@),
{
    let mut end: usize = chars.len();
    while end > 0 && char_is_whitespace(chars[end - 1])
        invariant
            end <= chars.len(),
            forall|k: int| end <= k < chars.len() ==> is_whitespace(chars@[k]),
        decreases end,
    {
        end = end - 1;
    }
    let mut start: usize = end;
    while start > 0 && !char_is_whitespace(chars[start - 1])
        invariant
            start <= end <= chars.len(),
            forall|k: int| start <= k < end ==> !is_whitespace(chars@[k]),
        decreases start,
    {
        start = start - 1;
    }
    proof {
        lemma_trim_end(chars@, end as int);
        lemma_after_last_whitespace(chars@.take(end as int), start as int);
        assert(chars@.take(end as int).skip(start as int) =~= chars@.subrange(
            start as int,
            end as int,
        ));
    }
    let mut out: Vec<char> = Vec::new();
    let mut i: usize = start;
    while i < end
        invariant
            start <= i <= end <= chars.len(),
            out@ == chars@.subrange(start as int, i as int),
        decreases end - i,
    {
        out.push(chars[i]);
        assert(out@ =~= chars@.subrange(start as int, i + 1));
        i = i + 1;
    }
    out
}

/// Position of the first line feed in `s`; the length of `s` if it has none.
pub open spec fn first_newline(s: Seq<char>) -> int
    decreases s.len(),
{
    if s.len() == 0 || s[0] == '\n' {
        0
    } else {
        1 + first_newline(s.skip(1))
    }
}

/// `line` without one carriage return at its end.
pub open spec fn strip_cr(line: Seq<char>) -> Seq<char> {
    if line.len() > 0 && line.last() == '\r' {
        line.drop_last()
    } else {
        line
    }
}

/// The lines of `s`. A line ends with a line feed, or with a carriage return
/// and a line feed; neither belongs to the line. What follows the last line
/// feed is a line too, unless it is empty.
pub open spec fn split_lines(s: Seq<char>) -> Seq<Seq<char>>
    decreases s.len(),
{
    let k = first_newline(s);
    if s.len() == 0 {
        Seq::empty()
    } else if 0 <= k < s.len() {
        seq![strip_cr(s.take(k))] + split_lines(s.skip(k + 1))
    } else {
        seq![s]
    }
}

/// The first line feed of `s` is at `k`, given that none comes before.
pub proof fn lemma_first_newline(s: Seq<char>, k: int)
    requires
        0 <= k <= s.len(),
        forall|j: int| 0 <= j < k ==> s[j] != '\n',
        k < s.len() ==> s[k] == '\n',
    ensures
        first_newline(s) == k,
    decreases s.len(),
{
    if k > 0 {
        lemma_first_newline(s.skip(1), k - 1);
    }
}

/// The views of a vector of character vectors.
pub open spec fn char_views(lines: Seq<Vec<char>>) -> Seq<Seq<char>> {
    lines.map_values(|line: Vec<char>| line@)
}

/// The lines of `chars`.
pub fn lines_of(chars: &Vec<char>) -> (r: Vec<Vec<char>>)
    ensures
        char_views(r@) == split_lines(chars@),
{
    let mut out: Vec<Vec<char>> = Vec::new();
    let mut line: Vec<char> = Vec::new();
    let mut start: usize = 0;
    let mut i: usize = 0;
    proof {
        assert(chars@.skip(0) =~= chars@);
        assert(char_views(out@) + split_lines(chars@) =~= split_lines(chars@));
        assert(chars@.subrange(0, 0) =~= line@);
    }
    while i < chars.len()
        invariant
            start <= i <= chars.len(),
            line@ == chars@.subrange(start as int, i as int),
            forall|j: int| start <= j < i ==> chars@[j] != '\n',
            split_lines(chars@) == char_views(out@) + split_lines(chars@.skip(start as int)),
        decreases chars.len() - i,
    {
        let c = chars[i];
        if c == '\n' {
            let ghost rest = chars@.skip(start as int);
            let ghost raw = line@;
            proof {
                lemma_first_newline(rest, i - start);
                assert(rest.take(i - start) =~= raw);
                assert(rest.skip(i - start + 1) =~= chars@.skip(i + 1));
            }
            if line.len() > 0 && line[line.len() - 1] == '\r' {
                line.pop();
            }
            assert(line@ =~= strip_cr(raw));
            let ghost before = char_views(out@);
            let ghost done = line@;
            out.push(line);
            assert(char_views(out@) =~= before.push(done));
            assert(before.push(done) + split_lines(chars@.skip(i + 1)) =~= before + (seq![done]
                + split_lines(chars@.skip(i + 1))));
            line = Vec::new();
            start = i + 1;
            assert(chars@.subrange(start as int, start as int) =~= Seq::<char>::empty());
        } else {
            line.push(c);
            assert(line@ =~= chars@.subrange(start as int, i + 1));
        }
        i = i + 1;
    }
    let ghost rest = chars@.skip(start as int);
    proof {
        lemma_first_newline(rest, rest.len() as int);
        assert(rest =~= line@);
    }
    if line.len() > 0 {
        let ghost before = char_views(out@);
        let ghost done = line@;
        out.push(line);
        assert(char_views(out@) =~= before.push(done));
        assert(before.push(done) =~= before + seq![done]);
    } else {
        assert(char_views(out@) + Seq::<Seq<char>>::empty() =~= char_views(out@));
    }
    out
}

/// Whether `a` and `b` are the same text.
pub fn str_eq(a: &str, b: &str) -> (r: bool)
    ensures
        r == (a@ == b@),
{
    String::from_str(a) == String::from_str(b)
}

} // verus!
