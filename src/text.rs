//! Words, reading time and decimal rendering over plain text.

use vstd::prelude::*;
use vstd::string::{StrSliceExecFns, StringExecFns};

verus! {

broadcast use vstd::string::group_string_axioms;

/// The characters with Unicode's White_Space property.
pub open spec fn is_white_space(c: char) -> bool {
    let n = c as u32;
    (9 <= n <= 13) || n == 32 || n == 0x85 || n == 0xa0 || n == 0x1680 || (0x2000 <= n <= 0x200a)
        || n == 0x2028 || n == 0x2029 || n == 0x202f || n == 0x205f || n == 0x3000
}

/// Position `i` of `s` holds the first character of a whitespace-delimited word.
pub open spec fn starts_word(s: Seq<char>, i: int) -> bool {
    !is_white_space(s[i]) && (i == 0 || is_white_space(s[i - 1]))
}

/// The number of whitespace-delimited words of `s`.
pub open spec fn word_count(s: Seq<char>) -> nat
    decreases s.len(),
{
    if s.len() == 0 {
        0
    } else {
        word_count(s.drop_last()) + if starts_word(s, s.len() - 1) {
            1nat
        } else {
            0nat
        }
    }
}

/// Whether `c` is a whitespace character.
pub fn is_whitespace_char(c: char) -> (r: bool)
    ensures
        r == is_white_space(c),
{
    let n = c as u32;
    (9 <= n && n <= 13) || n == 32 || n == 0x85 || n == 0xa0 || n == 0x1680 || (0x2000 <= n && n
        <= 0x200a) || n == 0x2028 || n == 0x2029 || n == 0x202f || n == 0x205f || n == 0x3000
}

/// Counts the whitespace-delimited words of `text`.
pub fn count_words(text: &str) -> (r: usize)
    ensures
        r == word_count(text@),
{
    let ghost s = text@;
    let len = text.unicode_len();
    let mut count: usize = 0;
    let mut after_space = true;
    for c in it: text.chars()
        invariant
            it.seq() == s,
            count == word_count(s.subrange(0, it.index() as int)),
            count <= it.index(),
            len == s.len(),
            after_space == (it.index() == 0 || is_white_space(s[it.index() - 1])),
    {
        let ghost i = it.index();
        proof {
            assert(s.subrange(0, i + 1).drop_last() =~= s.subrange(0, i));
        }
        let space = is_whitespace_char(c);
        if !space && after_space {
            count = count + 1;
        }
        after_space = space;
    }
    proof {
        assert(s.subrange(0, s.len() as int) =~= s);
    }
    count
}


/// Seconds needed to read `words` words at `wpm` words per minute, rounded up.
pub open spec fn reading_seconds(words: nat, wpm: nat) -> nat
    recommends
        wpm > 0,
{
    ((words * 60 + wpm - 1) / wpm as int) as nat
}

/// Estimated reading time, in whole seconds rounded up, of `words` words at `wpm`
/// words per minute.
pub fn reading_time_seconds(words: usize, wpm: u16) -> (r: u128)
    requires
        wpm > 0,
    ensures
        r == reading_seconds(words as nat, wpm as nat),
{
    let total: u128 = words as u128 * 60 + wpm as u128 - 1;
    total / wpm as u128
}

/// The character of decimal digit `d`.
pub open spec fn digit_char(d: nat) -> char {
    ((d + 48) as u8) as char
}

/// The decimal notation of `n`, without sign or leading zeros.
pub open spec fn decimal(n: nat) -> Seq<char>
    decreases n,
{
    if n < 10 {
        seq![digit_char(n)]
    } else {
        decimal(n / 10).push(digit_char(n % 10))
    }
}

/// Relies on the `Display` impl of `u128` (through `ToString`): plain decimal notation.
#[verifier::external_body]
pub(crate) fn u128_to_decimal(n: u128) -> (r: String)
    ensures
        r@ == decimal(n as nat),
{
    n.to_string()
}

/// `parts` joined, with `sep` between each two neighbours.
pub open spec fn join_with(parts: Seq<Seq<char>>, sep: Seq<char>) -> Seq<char>
    decreases parts.len(),
{
    if parts.len() == 0 {
        Seq::empty()
    } else if parts.len() == 1 {
        parts[0]
    } else {
        join_with(parts.drop_last(), sep) + sep + parts.last()
    }
}

/// The views of a vector of strings.
pub open spec fn strings_view(v: Seq<String>) -> Seq<Seq<char>> {
    v.map_values(|s: String| s@)
}

/// Joins `parts`, putting `sep` between each two neighbours.
pub fn join_strings(parts: &Vec<String>, sep: &str) -> (r: String)
    ensures
        r@ == join_with(strings_view(parts@), sep@),
{
    let ghost ps = strings_view(parts@);
    let mut out = String::new();
    let mut i: usize = 0;
    while i < parts.len()
        invariant
            i <= parts.len(),
            ps == strings_view(parts@),
            out@ == join_with(ps.subrange(0, i as int), sep@),
        decreases parts.len() - i,
    {
        proof {
            assert(ps.subrange(0, i + 1).drop_last() =~= ps.subrange(0, i as int));
        }
        if i > 0 {
            out.append(sep);
        }
        out.append(parts[i].as_str());
        i = i + 1;
    }
    proof {
        assert(ps.subrange(0, parts.len() as int) =~= ps);
    }
    out
}


/// The pieces of `s` between line feeds: one more piece than `s` has line feeds.
pub open spec fn split_at_line_feeds(s: Seq<char>) -> Seq<Seq<char>>
    decreases s.len(),
{
    if s.len() == 0 {
        seq![Seq::empty()]
    } else {
        let p = split_at_line_feeds(s.drop_last());
        if s.last() == '\n' {
            p.push(Seq::empty())
        } else {
            p.update(p.len() - 1, p.last().push(s.last()))
        }
    }
}

/// A piece that ended at a line feed, without the carriage return before it.
pub open spec fn without_carriage_return(line: Seq<char>) -> Seq<char> {
    if line.len() > 0 && line.last() == '\r' {
        line.drop_last()
    } else {
        line
    }
}

/// The lines of `s`: split at `\n` or `\r\n`, without the line endings; a final
/// line ending does not start one more, empty, line.
pub open spec fn lines_of(s: Seq<char>) -> Seq<Seq<char>> {
    let p = split_at_line_feeds(s);
    let ended = p.drop_last().map_values(|l: Seq<char>| without_carriage_return(l));
    if p.last().len() == 0 {
        ended
    } else {
        ended.push(p.last())
    }
}

/// Relies on `str::lines`: the lines of the text, split at `\n` or `\r\n`, without
/// the line endings, and no empty line after a final line ending.
#[verifier::external_body]
fn text_lines(text: &str) -> (r: Vec<String>)
    ensures
        strings_view(r@) == lines_of(text@),
{
    text.lines().map(String::from).collect()
}

/// The part of `lines` from index `from` on, at most `count` of them.
pub open spec fn window(lines: Seq<Seq<char>>, from: nat, count: nat) -> Seq<Seq<char>> {
    let start = if from < lines.len() {
        from as int
    } else {
        lines.len() as int
    };
    let end = if from + count < lines.len() {
        (from + count) as int
    } else {
        lines.len() as int
    };
    lines.subrange(start, end)
}

/// The lines of `text` that a viewport of `height` lines shows when `offset`
/// lines are scrolled past; past the end of the text, none.
pub fn visible_lines(text: &str, offset: usize, height: usize) -> (r: Vec<String>)
    ensures
        strings_view(r@) == window(lines_of(text@), offset as nat, height as nat),
{
    let mut all = text_lines(text);
    let ghost lv = strings_view(all@);
    let n = all.len();
    let start = if offset < n {
        offset
    } else {
        n
    };
    let end = if height < n - start {
        start + height
    } else {
        n
    };
    let mut shown = all.split_off(start);
    shown.truncate(end - start);
    proof {
        assert(strings_view(shown@) =~= window(lv, offset as nat, height as nat));
    }
    shown
}

} // verus!
