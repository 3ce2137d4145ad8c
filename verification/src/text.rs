//! Helpers on sequences of characters: classification, line splitting,
//! whitespace-separated words and decimal numbers.

use vstd::prelude::*;

verus! {

/// The character rows held by a vector of vectors.
pub open spec fn spec_rows(rows: Seq<Vec<char>>) -> Seq<Seq<char>> {
    Seq::new(rows.len(), |r: int| rows[r]@)
}

/// Whether a character is Unicode white space.
pub open spec fn spec_is_space(c: char) -> bool {
    let n = c as u32;
    ||| 0x09 <= n <= 0x0D
    ||| n == 0x20
    ||| n == 0x85
    ||| n == 0xA0
    ||| n == 0x1680
    ||| 0x2000 <= n <= 0x200A
    ||| n == 0x2028
    ||| n == 0x2029
    ||| n == 0x202F
    ||| n == 0x205F
    ||| n == 0x3000
}

/// Whether a character is Unicode white space.
pub fn is_space(c: char) -> (b: bool)
    ensures
        b == spec_is_space(c),
{
    let n: u32 = c as u32;
    (0x09 <= n && n <= 0x0D) || n == 0x20 || n == 0x85 || n == 0xA0 || n == 0x1680 || (0x2000 <= n
        && n <= 0x200A) || n == 0x2028 || n == 0x2029 || n == 0x202F || n == 0x205F || n == 0x3000
}

/// The upper-case form of an ASCII letter; any other character unchanged.
pub open spec fn spec_upper(c: char) -> char {
    if 'a' <= c <= 'z' {
        ((c as u8 - 32) as u8) as char
    } else {
        c
    }
}

/// The upper-case form of an ASCII letter; any other character unchanged.
pub fn to_upper(c: char) -> (u: char)
    ensures
        u == spec_upper(c),
{
    if 'a' <= c && c <= 'z' {
        let b: u8 = c as u8;
        (b - 32) as char
    } else {
        c
    }
}

/// The value of a hexadecimal digit.
pub open spec fn spec_hex_value(c: char) -> Option<u8> {
    if '0' <= c <= '9' {
        Some((c as u8 - 48) as u8)
    } else if 'a' <= c <= 'f' {
        Some((c as u8 - 87) as u8)
    } else if 'A' <= c <= 'F' {
        Some((c as u8 - 55) as u8)
    } else {
        None
    }
}

/// The value of a hexadecimal digit, or `None` for any other character.
pub fn hex_value(c: char) -> (v: Option<u8>)
    ensures
        v == spec_hex_value(c),
        v is Some ==> v->0 < 16,
{
    if '0' <= c && c <= '9' {
        Some(c as u8 - 48)
    } else if 'a' <= c && c <= 'f' {
        Some(c as u8 - 87)
    } else if 'A' <= c && c <= 'F' {
        Some(c as u8 - 55)
    } else {
        None
    }
}

/// The characters of a string slice, in order.
pub fn to_chars(s: &str) -> (v: Vec<char>)
    ensures
        v@ == s@,
{
    let mut v: Vec<char> = Vec::new();
    for c in it: s.chars()
        invariant
            it.seq() == s@,
            v@ == it.seq().take(it.index() as int),
    {
        v.push(c);
    }
    v
}

/// The characters from `from` up to `to`.
pub fn slice_chars(s: &Vec<char>, from: usize, to: usize) -> (out: Vec<char>)
    requires
        from <= to <= s@.len(),
    ensures
        out@ == s@.subrange(from as int, to as int),
{
    let mut out: Vec<char> = Vec::new();
    let mut i: usize = from;
    while i < to
        invariant
            from <= i <= to <= s@.len(),
            out@ == s@.subrange(from as int, i as int),
        decreases to - i,
    {
        out.push(s[i]);
        i += 1;
        assert(out@ =~= s@.subrange(from as int, i as int));
    }
    out
}

/// The position of the first line feed at or after `from`; the length of
/// the text where there is none.
pub open spec fn spec_line_end(s: Seq<char>, from: int) -> int
    decreases s.len() - from,
{
    if from < 0 || from >= s.len() {
        s.len() as int
    } else if s[from] == '\n' {
        from
    } else {
        spec_line_end(s, from + 1)
    }
}

/// A line without the carriage return that stood before its line feed.
pub open spec fn spec_strip_cr(line: Seq<char>) -> Seq<char> {
    if line.len() > 0 && line.last() == '\r' {
        line.drop_last()
    } else {
        line
    }
}

/// The lines of the text that starts at `from`.
pub open spec fn spec_lines_from(s: Seq<char>, from: int) -> Seq<Seq<char>>
    decreases s.len() - from,
{
    if from < 0 || from >= s.len() {
        Seq::empty()
    } else {
        let end = spec_line_end(s, from);
        if end >= s.len() {
            seq![s.subrange(from, s.len() as int)]
        } else if end < from {
            Seq::empty()
        } else {
            seq![spec_strip_cr(s.subrange(from, end))] + spec_lines_from(s, end + 1)
        }
    }
}

/// The lines of a text. A line ends at a line feed, or at a carriage return
/// directly followed by one; neither belongs to the line. The end of the
/// text ends the last line, and a text that ends in a line feed has no
/// empty line after it.
pub open spec fn spec_lines(s: Seq<char>) -> Seq<Seq<char>> {
    spec_lines_from(s, 0)
}

/// Splits a text into its lines.
pub fn split_lines(s: &Vec<char>) -> (lines: Vec<Vec<char>>)
    ensures
        spec_rows(lines@) == spec_lines(s@),
{
    let mut lines: Vec<Vec<char>> = Vec::new();
    let mut pos: usize = 0;
    let n = s.len();
    assert(spec_rows(lines@) =~= Seq::<Seq<char>>::empty());
    while pos < n
        invariant
            pos <= n,
            n == s@.len(),
            spec_rows(lines@) + spec_lines_from(s@, pos as int) == spec_lines(s@),
        decreases n - pos,
    {
        let mut end: usize = pos;
        while end < n && s[end] != '\n'
            invariant
                pos <= end <= n,
                n == s@.len(),
                spec_line_end(s@, pos as int) == spec_line_end(s@, end as int),
            decreases n - end,
        {
            end += 1;
        }
        let ghost before = spec_rows(lines@);
        if end >= n {
            let line = slice_chars(s, pos, n);
            lines.push(line);
            assert(spec_rows(lines@) =~= before + seq![s@.subrange(pos as int, n as int)]);
            pos = n;
            assert(spec_lines_from(s@, n as int) =~= Seq::<Seq<char>>::empty());
        } else {
            let stop: usize = if end > pos && s[end - 1] == '\r' {
                end - 1
            } else {
                end
            };
            let line = slice_chars(s, pos, stop);
            assert(line@ =~= spec_strip_cr(s@.subrange(pos as int, end as int)));
            lines.push(line);
            assert(spec_rows(lines@) =~= before + seq![
                spec_strip_cr(s@.subrange(pos as int, end as int)),
            ]);
            assert(before + (seq![spec_strip_cr(s@.subrange(pos as int, end as int))]
                + spec_lines_from(s@, end + 1)) =~= (before + seq![
                spec_strip_cr(s@.subrange(pos as int, end as int)),
            ]) + spec_lines_from(s@, end + 1));
            pos = end + 1;
        }
    }
    assert(spec_lines_from(s@, pos as int) =~= Seq::<Seq<char>>::empty());
    assert(spec_rows(lines@) + Seq::<Seq<char>>::empty() =~= spec_rows(lines@));
    lines
}

/// The position of the first character at or after `from` that is not
/// white space; the length of the text where there is none.
pub open spec fn spec_skip_spaces(s: Seq<char>, from: int) -> int
    decreases s.len() - from,
{
    if from < 0 || from >= s.len() {
        s.len() as int
    } else if !spec_is_space(s[from]) {
        from
    } else {
        spec_skip_spaces(s, from + 1)
    }
}

/// The position of the first white space at or after `from`; the length of
/// the text where there is none.
pub open spec fn spec_word_end(s: Seq<char>, from: int) -> int
    decreases s.len() - from,
{
    if from < 0 || from >= s.len() {
        s.len() as int
    } else if spec_is_space(s[from]) {
        from
    } else {
        spec_word_end(s, from + 1)
    }
}

/// The first white-space-separated word at or after `from`, as the pair of
/// its start and its end, or `None` where only white space is left.
pub open spec fn spec_next_word(s: Seq<char>, from: int) -> Option<(int, int)> {
    let start = spec_skip_spaces(s, from);
    if start >= s.len() {
        None
    } else {
        Some((start, spec_word_end(s, start)))
    }
}

/// A word starts at or after the place the search started from, holds at
/// least one character and ends inside the text.
pub proof fn lemma_next_word_range(s: Seq<char>, from: int)
    requires
        0 <= from <= s.len(),
    ensures
        from <= spec_skip_spaces(s, from) <= s.len(),
        from <= spec_word_end(s, from) <= s.len(),
        from < s.len() && !spec_is_space(s[from]) ==> from < spec_word_end(s, from),
    decreases s.len() - from,
{
    if from < s.len() {
        lemma_next_word_range(s, from + 1);
    }
}

/// Finds the first white-space-separated word at or after `from`.
pub fn next_word(s: &Vec<char>, from: usize) -> (w: Option<(usize, usize)>)
    requires
        from <= s@.len(),
    ensures
        match w {
            Some((start, end)) => {
                &&& spec_next_word(s@, from as int) == Some((start as int, end as int))
                &&& from <= start < end <= s@.len()
            },
            None => spec_next_word(s@, from as int) is None,
        },
{
    let n = s.len();
    let mut start: usize = from;
    while start < n && is_space(s[start])
        invariant
            from <= start <= n,
            n == s@.len(),
            spec_skip_spaces(s@, from as int) == spec_skip_spaces(s@, start as int),
        decreases n - start,
    {
        start += 1;
    }
    if start >= n {
        return None;
    }
    let mut end: usize = start;
    while end < n && !is_space(s[end])
        invariant
            start <= end <= n,
            n == s@.len(),
            spec_word_end(s@, start as int) == spec_word_end(s@, end as int),
        decreases n - end,
    {
        end += 1;
    }
    proof {
        lemma_next_word_range(s@, start as int);
    }
    Some((start, end))
}

/// The position of the first character at or after `from` that differs
/// from `ch`; the length of the text where there is none.
pub open spec fn spec_skip_char(s: Seq<char>, ch: char, from: int) -> int
    decreases s.len() - from,
{
    if from < 0 || from >= s.len() {
        s.len() as int
    } else if s[from] != ch {
        from
    } else {
        spec_skip_char(s, ch, from + 1)
    }
}

/// One past the last character before `to` that differs from `ch`; zero
/// where there is none.
pub open spec fn spec_end_without_char(s: Seq<char>, ch: char, to: int) -> int
    decreases to,
{
    if to <= 0 || to > s.len() {
        0
    } else if s[to - 1] != ch {
        to
    } else {
        spec_end_without_char(s, ch, to - 1)
    }
}

/// One past the last character before `to` that is not white space; zero
/// where there is none.
pub open spec fn spec_end_without_spaces(s: Seq<char>, to: int) -> int
    decreases to,
{
    if to <= 0 || to > s.len() {
        0
    } else if !spec_is_space(s[to - 1]) {
        to
    } else {
        spec_end_without_spaces(s, to - 1)
    }
}

/// The text without the white space at its start and at its end.
pub open spec fn spec_trim(s: Seq<char>) -> Seq<char> {
    let start = spec_skip_spaces(s, 0);
    let end = spec_end_without_spaces(s, s.len() as int);
    if start >= end {
        Seq::empty()
    } else {
        s.subrange(start, end)
    }
}

/// The text without every `ch` that stands at its start.
pub open spec fn spec_strip_leading(s: Seq<char>, ch: char) -> Seq<char> {
    s.skip(spec_skip_char(s, ch, 0))
}

/// The text without every `ch` that stands at its end.
pub open spec fn spec_strip_trailing(s: Seq<char>, ch: char) -> Seq<char> {
    s.take(spec_end_without_char(s, ch, s.len() as int))
}

/// The text without the white space at its start and at its end.
pub fn trim(s: &Vec<char>) -> (out: Vec<char>)
    ensures
        out@ == spec_trim(s@),
{
    let n = s.len();
    let mut start: usize = 0;
    while start < n && is_space(s[start])
        invariant
            start <= n,
            n == s@.len(),
            spec_skip_spaces(s@, 0) == spec_skip_spaces(s@, start as int),
        decreases n - start,
    {
        start += 1;
    }
    let mut end: usize = n;
    while end > 0 && is_space(s[end - 1])
        invariant
            end <= n,
            n == s@.len(),
            spec_end_without_spaces(s@, n as int) == spec_end_without_spaces(s@, end as int),
        decreases end,
    {
        end -= 1;
    }
    if start >= end {
        Vec::new()
    } else {
        slice_chars(s, start, end)
    }
}

/// The text without every `ch` that stands at its start.
pub fn strip_leading(s: &Vec<char>, ch: char) -> (out: Vec<char>)
    ensures
        out@ == spec_strip_leading(s@, ch),
{
    let n = s.len();
    let mut start: usize = 0;
    while start < n && s[start] == ch
        invariant
            start <= n,
            n == s@.len(),
            spec_skip_char(s@, ch, 0) == spec_skip_char(s@, ch, start as int),
        decreases n - start,
    {
        start += 1;
    }
    let out = slice_chars(s, start, n);
    assert(out@ =~= s@.skip(start as int));
    out
}

/// The text without every `ch` that stands at its end.
pub fn strip_trailing(s: &Vec<char>, ch: char) -> (out: Vec<char>)
    ensures
        out@ == spec_strip_trailing(s@, ch),
{
    let n = s.len();
    let mut end: usize = n;
    while end > 0 && s[end - 1] == ch
        invariant
            end <= n,
            n == s@.len(),
            spec_end_without_char(s@, ch, n as int) == spec_end_without_char(s@, ch, end as int),
        decreases end,
    {
        end -= 1;
    }
    let out = slice_chars(s, 0, end);
    assert(out@ =~= s@.take(end as int));
    out
}

/// Whether every character is a decimal digit.
pub open spec fn spec_all_digits(s: Seq<char>) -> bool {
    forall|i: int| 0 <= i < s.len() ==> '0' <= #[trigger] s[i] <= '9'
}

/// The number that a sequence of decimal digits writes.
pub open spec fn spec_digits_value(s: Seq<char>) -> nat
    decreases s.len(),
{
    if s.len() == 0 {
        0
    } else {
        10 * spec_digits_value(s.drop_last()) + (s.last() as u8 - 48) as nat
    }
}

/// The number written by an optional `+` followed by at least one decimal
/// digit, or `None` for any other text.
pub open spec fn spec_parse_unsigned(s: Seq<char>) -> Option<nat> {
    let body = if s.len() > 0 && s[0] == '+' {
        s.drop_first()
    } else {
        s
    };
    if body.len() > 0 && spec_all_digits(body) {
        Some(spec_digits_value(body))
    } else {
        None
    }
}

/// The number written by an optional sign followed by at least one decimal
/// digit, or `None` for any other text.
pub open spec fn spec_parse_signed(s: Seq<char>) -> Option<int> {
    if s.len() > 0 && s[0] == '-' {
        let body = s.drop_first();
        if body.len() > 0 && spec_all_digits(body) {
            Some(-(spec_digits_value(body) as int))
        } else {
            None
        }
    } else {
        match spec_parse_unsigned(s) {
            Some(v) => Some(v as int),
            None => None,
        }
    }
}

/// More digits never write a smaller number.
pub proof fn lemma_digits_value_grows(s: Seq<char>, k: int)
    requires
        0 <= k <= s.len(),
    ensures
        spec_digits_value(s.take(k)) <= spec_digits_value(s),
    decreases s.len() - k,
{
    if k < s.len() {
        lemma_digits_value_grows(s, k + 1);
        assert(s.take(k + 1).drop_last() =~= s.take(k));
    } else {
        assert(s.take(k) =~= s);
    }
}

/// Reads the digits of `s` from `from` on as a number of at most `limit`.
/// The result is `None` where a character is no digit, where there is no
/// digit at all, or where the number is above `limit`.
fn parse_digits(s: &Vec<char>, from: usize, limit: u64) -> (v: Option<u64>)
    requires
        from <= s@.len(),
    ensures
        v is Some <==> (from < s@.len() && spec_all_digits(s@.skip(from as int))
            && spec_digits_value(s@.skip(from as int)) <= limit),
        v is Some ==> v->0 == spec_digits_value(s@.skip(from as int)),
{
    let n = s.len();
    if from >= n {
        return None;
    }
    let ghost body = s@.skip(from as int);
    let mut acc: u64 = 0;
    let mut i: usize = from;
    assert(body.take(0) =~= Seq::<char>::empty());
    while i < n
        invariant
            from <= i <= n,
            n == s@.len(),
            body == s@.skip(from as int),
            spec_all_digits(body.take(i - from)),
            acc == spec_digits_value(body.take(i - from)),
            acc <= limit,
        decreases n - i,
    {
        let c = s[i];
        assert(c == body[i - from]);
        if !('0' <= c && c <= '9') {
            return None;
        }
        let d: u64 = (c as u8 - 48) as u64;
        proof {
            assert(body.take(i - from + 1).drop_last() =~= body.take(i - from));
            lemma_digits_value_grows(body, i - from + 1);
        }
        if d > limit || acc > (limit - d) / 10 {
            assert(spec_digits_value(body.take(i - from + 1)) > limit);
            return None;
        }
        acc = acc * 10 + d;
        i += 1;
    }
    assert(body.take(n - from) =~= body);
    Some(acc)
}

/// Reads an unsigned decimal number of at most `limit`: an optional `+`,
/// then at least one digit.
pub fn parse_unsigned(s: &Vec<char>, limit: u64) -> (v: Option<u64>)
    ensures
        v is Some <==> (spec_parse_unsigned(s@) is Some && spec_parse_unsigned(s@)->0 <= limit),
        v is Some ==> v->0 == spec_parse_unsigned(s@)->0,
{
    let from: usize = if s.len() > 0 && s[0] == '+' {
        1
    } else {
        0
    };
    assert(s@.skip(1) =~= s@.drop_first());
    assert(s@.skip(0) =~= s@);
    parse_digits(s, from, limit)
}

/// Whether a text writes a signed decimal number between `-(below)` and
/// `above`: an optional sign, then at least one digit.
pub fn is_signed_in_range(s: &Vec<char>, below: u64, above: u64) -> (b: bool)
    ensures
        b <==> (spec_parse_signed(s@) is Some && -(below as int) <= spec_parse_signed(s@)->0
            <= above),
{
    assert(s@.skip(1) =~= s@.drop_first());
    assert(s@.skip(0) =~= s@);
    if s.len() > 0 && s[0] == '-' {
        parse_digits(s, 1, below).is_some()
    } else {
        parse_unsigned(s, above).is_some()
    }
}

} // verus!
