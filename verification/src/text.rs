//! Text: decimal numerals, and the lines of a captured output.

use vstd::prelude::*;
use vstd::utf8::{encode_utf8, valid_utf8};

verus! {

/// `String::push` appends one character to the end of the string.
pub assume_specification[ String::push ](text: &mut String, ch: char)
    ensures
        final(text)@ == old(text)@.push(ch),
;

/// The error of `core::str::from_utf8`; nothing is read from it.
#[verifier::external_type_specification]
#[verifier::external_body]
pub struct ExUtf8Error(core::str::Utf8Error);

/// `core::str::from_utf8` checks that the bytes are valid UTF-8 and, where
/// they are, hands the same bytes back as a string slice; where they are
/// not, it returns an error.
pub assume_specification[ core::str::from_utf8 ](bytes: &[u8]) -> (r: Result<
    &str,
    core::str::Utf8Error,
>)
    ensures
        match r {
            Ok(text) => valid_utf8(bytes@) && encode_utf8(text@) == bytes@,
            Err(_) => !valid_utf8(bytes@),
        },
;

/// A text has no more characters than its encoding has bytes.
pub proof fn lemma_text_within_bytes(text: Seq<char>)
    ensures
        text.len() <= encode_utf8(text).len(),
    decreases text.len(),
{
    if text.len() > 0 {
        lemma_text_within_bytes(text.drop_first());
    }
}

/// The views of a sequence of strings, in order.
pub open spec fn views(texts: Seq<String>) -> Seq<Seq<char>> {
    texts.map_values(|text: String| text@)
}

/// The numeral of a digit.
pub open spec fn digit(d: nat) -> char
    recommends
        d < 10,
{
    if d == 0 {
        '0'
    } else if d == 1 {
        '1'
    } else if d == 2 {
        '2'
    } else if d == 3 {
        '3'
    } else if d == 4 {
        '4'
    } else if d == 5 {
        '5'
    } else if d == 6 {
        '6'
    } else if d == 7 {
        '7'
    } else if d == 8 {
        '8'
    } else {
        '9'
    }
}

/// The decimal numeral of `n`: its digits from the most significant down,
/// with no leading zero except for zero itself.
pub open spec fn decimal(n: nat) -> Seq<char>
    decreases n,
{
    if n < 10 {
        seq![digit(n)]
    } else {
        decimal(n / 10).push(digit(n % 10))
    }
}

/// The digit that a numeral stands for; what is no numeral stands for 0.
pub open spec fn digit_value(c: char) -> nat {
    if c == '1' {
        1
    } else if c == '2' {
        2
    } else if c == '3' {
        3
    } else if c == '4' {
        4
    } else if c == '5' {
        5
    } else if c == '6' {
        6
    } else if c == '7' {
        7
    } else if c == '8' {
        8
    } else if c == '9' {
        9
    } else {
        0
    }
}

/// The number that a row of numerals stands for, read in base ten.
pub open spec fn numeral_value(numerals: Seq<char>) -> nat
    decreases numerals.len(),
{
    if numerals.len() == 0 {
        0
    } else {
        numeral_value(numerals.drop_last()) * 10 + digit_value(numerals.last())
    }
}

/// A decimal numeral reads back as the number it was written for; it has
/// at least one digit, and a leading zero only where the number is zero.
pub proof fn lemma_decimal_reads_back(n: nat)
    ensures
        numeral_value(decimal(n)) == n,
        decimal(n).len() >= 1,
        n > 0 ==> decimal(n)[0] != '0',
    decreases n,
{
    if n < 10 {
        assert(numeral_value(decimal(n).drop_last()) == 0);
    } else {
        lemma_decimal_reads_back(n / 10);
        assert(decimal(n).drop_last() =~= decimal(n / 10));
    }
}

/// The lines of a text: the pieces between its line feeds. A text with `k`
/// line feeds has `k + 1` lines, of which any may be empty.
pub open spec fn lines_of(text: Seq<char>) -> Seq<Seq<char>>
    decreases text.len(),
{
    if text.len() == 0 {
        seq![Seq::empty()]
    } else {
        let before = lines_of(text.drop_last());
        if text.last() == '\n' {
            before.push(Seq::empty())
        } else {
            before.drop_last().push(before.last().push(text.last()))
        }
    }
}

/// A text always has a line, if only an empty one.
pub proof fn lemma_lines_nonempty(text: Seq<char>)
    ensures
        lines_of(text).len() >= 1,
    decreases text.len(),
{
    if text.len() > 0 {
        lemma_lines_nonempty(text.drop_last());
    }
}

/// How many line feeds a text holds.
pub open spec fn line_feeds(text: Seq<char>) -> nat {
    text.filter(|c: char| c == '\n').len()
}

/// A text has one line more than it has line feeds.
pub proof fn lemma_lines_count(text: Seq<char>)
    ensures
        lines_of(text).len() == line_feeds(text) + 1,
        lines_of(text).len() <= text.len() + 1,
    decreases text.len(),
{
    reveal(Seq::filter);
    text.lemma_filter_len(|c: char| c == '\n');
    if text.len() > 0 {
        lemma_lines_count(text.drop_last());
    }
}

/// No line holds a line feed.
pub proof fn lemma_lines_hold_no_feed(text: Seq<char>, i: int)
    requires
        0 <= i < lines_of(text).len(),
    ensures
        !lines_of(text)[i].contains('\n'),
    decreases text.len(),
{
    if text.len() > 0 {
        let before = lines_of(text.drop_last());
        lemma_lines_nonempty(text.drop_last());
        if text.last() == '\n' {
            if i < before.len() {
                lemma_lines_hold_no_feed(text.drop_last(), i);
            }
        } else {
            if i < before.len() - 1 {
                lemma_lines_hold_no_feed(text.drop_last(), i);
            } else {
                lemma_lines_hold_no_feed(text.drop_last(), before.len() - 1);
                let line = before.last().push(text.last());
                assert forall|k: int| 0 <= k < line.len() implies line[k] != '\n' by {
                    if k < before.last().len() {
                        assert(before.last().contains(before.last()[k]));
                    }
                }
            }
        }
    }
}

/// The lines of a text, put together again with a line feed between each
/// two.
pub open spec fn joined(lines: Seq<Seq<char>>) -> Seq<char>
    decreases lines.len(),
{
    if lines.len() == 0 {
        Seq::empty()
    } else if lines.len() == 1 {
        lines[0]
    } else {
        joined(lines.drop_last()).push('\n') + lines.last()
    }
}

/// Splitting loses nothing: the lines of a text, joined by line feeds, are
/// the text.
pub proof fn lemma_lines_join(text: Seq<char>)
    ensures
        joined(lines_of(text)) == text,
    decreases text.len(),
{
    if text.len() > 0 {
        let rest = text.drop_last();
        let before = lines_of(rest);
        lemma_lines_nonempty(rest);
        lemma_lines_join(rest);
        if text.last() == '\n' {
            let lines = before.push(Seq::empty());
            assert(lines.drop_last() =~= before);
            assert(joined(lines) =~= rest.push('\n'));
        } else {
            let line = before.last().push(text.last());
            let lines = before.drop_last().push(line);
            assert(lines.drop_last() =~= before.drop_last());
            assert(joined(lines) =~= joined(before).push(text.last()));
        }
        assert(rest.push(text.last()) =~= text);
    }
}

fn digit_char(d: u32) -> (c: char)
    requires
        d < 10,
    ensures
        c == digit(d as nat),
{
    if d == 0 {
        '0'
    } else if d == 1 {
        '1'
    } else if d == 2 {
        '2'
    } else if d == 3 {
        '3'
    } else if d == 4 {
        '4'
    } else if d == 5 {
        '5'
    } else if d == 6 {
        '6'
    } else if d == 7 {
        '7'
    } else if d == 8 {
        '8'
    } else {
        '9'
    }
}

fn push_decimal(text: &mut String, n: u32)
    ensures
        final(text)@ == old(text)@ + decimal(n as nat),
    decreases n,
{
    if n >= 10 {
        push_decimal(text, n / 10);
    }
    text.push(digit_char(n % 10));
}

/// Writes `n` as a decimal numeral.
pub fn decimal_string(n: u32) -> (text: String)
    ensures
        text@ == decimal(n as nat),
{
    let mut text = String::new();
    push_decimal(&mut text, n);
    text
}

/// Splits a text at its line feeds.
pub fn split_lines(text: &str) -> (lines: Vec<String>)
    ensures
        views(lines@) == lines_of(text@),
{
    broadcast use vstd::string::group_string_axioms;

    let mut lines: Vec<String> = Vec::new();
    let mut current = String::new();
    let chars = text.chars();
    for c in it: chars
        invariant
            it.seq() == text@,
            views(lines@).push(current@) == lines_of(text@.take(it.index())),
    {
        proof {
            let seen = text@.take(it.index() + 1);
            assert(seen.drop_last() == text@.take(it.index()));
        }
        if c == '\n' {
            lines.push(current);
            current = String::new();
        } else {
            current.push(c);
        }
    }
    lines.push(current);
    assert(text@.take(text@.len() as int) == text@);
    lines
}

} // verus!
