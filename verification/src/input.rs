//! Turning a line of text, as it was read, into an entry.
//!
//! An entry is the line without the whitespace at its two ends. A line that
//! holds nothing else is no entry: callers take it as a cancellation.

use vstd::prelude::*;

verus! {

/// Whether `char::is_whitespace` holds of `c`, that is, whether `c` has the
/// Unicode property `White_Space`.
pub uninterp spec fn whitespace(c: char) -> bool;

/// `char::is_whitespace` of the standard library. The contract only names
/// its answer: which characters count as whitespace is left to Unicode.
#[verifier::external_body]
fn is_whitespace(c: char) -> (yes: bool)
    ensures
        yes == whitespace(c),
{
    c.is_whitespace()
}

/// `text` from its first character that is not whitespace.
pub open spec fn without_leading(text: Seq<char>) -> Seq<char>
    decreases text.len(),
{
    if text.len() > 0 && whitespace(text.first()) {
        without_leading(text.drop_first())
    } else {
        text
    }
}

/// `text` up to its last character that is not whitespace.
pub open spec fn without_trailing(text: Seq<char>) -> Seq<char>
    decreases text.len(),
{
    if text.len() > 0 && whitespace(text.last()) {
        without_trailing(text.drop_last())
    } else {
        text
    }
}

/// `text` without the whitespace at its two ends.
pub open spec fn trimmed(text: Seq<char>) -> Seq<char> {
    without_trailing(without_leading(text))
}

/// The entry that a line holds: its trimmed text, unless that is empty.
pub open spec fn entered(line: Seq<char>) -> Option<Seq<char>> {
    if trimmed(line).len() == 0 {
        None
    } else {
        Some(trimmed(line))
    }
}

/// The characters of an entry, if there is one.
pub open spec fn entry_text(entry: Option<String>) -> Option<Seq<char>> {
    match entry {
        Some(text) => Some(text@),
        None => None,
    }
}

/// The entry that `line` holds, or `None` where it holds only whitespace.
pub fn get_input(line: &str) -> (entry: Option<String>)
    ensures
        entry_text(entry) == entered(line@),
{
    let n: usize = line.unicode_len();
    let mut start: usize = 0;
    assert(line@.subrange(0, n as int) =~= line@);
    while start < n && is_whitespace(line.get_char(start))
        invariant
            start <= n,
            n == line@.len(),
            without_leading(line@) == without_leading(line@.subrange(start as int, n as int)),
        decreases n - start,
    {
        assert(line@.subrange(start as int, n as int).drop_first() =~= line@.subrange(
            start as int + 1,
            n as int,
        ));
        start += 1;
    }
    let mut end: usize = n;
    while end > start && is_whitespace(line.get_char(end - 1))
        invariant
            start <= end <= n,
            n == line@.len(),
            trimmed(line@) == without_trailing(line@.subrange(start as int, end as int)),
        decreases end,
    {
        assert(line@.subrange(start as int, end as int).drop_last() =~= line@.subrange(
            start as int,
            end as int - 1,
        ));
        end -= 1;
    }
    if start == end {
        None
    } else {
        Some(line.substring_char(start, end).to_owned())
    }
}

/// The two ends of an entry are not whitespace, and nothing is left to trim
/// from it.
pub proof fn entry_has_no_outer_whitespace(line: Seq<char>)
    requires
        entered(line) is Some,
    ensures
        !whitespace(entered(line).unwrap().first()),
        !whitespace(entered(line).unwrap().last()),
        entered(entered(line).unwrap()) == entered(line),
{
    let inner = without_leading(line);
    leading_ends_at_text(line);
    trailing_keeps_start(inner);
    trailing_ends_at_text(inner);
}

/// A line of whitespace alone, the empty line included, holds no entry.
pub proof fn blank_line_is_no_entry(line: Seq<char>)
    requires
        forall|i: int| 0 <= i < line.len() ==> whitespace(#[trigger] line[i]),
    ensures
        entered(line) is None,
    decreases line.len(),
{
    if line.len() > 0 {
        assert forall|i: int| 0 <= i < line.drop_first().len() implies whitespace(
            #[trigger] line.drop_first()[i],
        ) by {
            assert(line.drop_first()[i] == line[i + 1]);
        }
        blank_line_is_no_entry(line.drop_first());
    }
}

proof fn leading_ends_at_text(text: Seq<char>)
    ensures
        without_leading(text).len() > 0 ==> !whitespace(without_leading(text).first()),
        without_leading(without_leading(text)) == without_leading(text),
    decreases text.len(),
{
    if text.len() > 0 && whitespace(text.first()) {
        leading_ends_at_text(text.drop_first());
    }
}

proof fn trailing_ends_at_text(text: Seq<char>)
    ensures
        without_trailing(text).len() > 0 ==> !whitespace(without_trailing(text).last()),
        without_trailing(without_trailing(text)) == without_trailing(text),
    decreases text.len(),
{
    if text.len() > 0 && whitespace(text.last()) {
        trailing_ends_at_text(text.drop_last());
    }
}

proof fn trailing_keeps_start(text: Seq<char>)
    ensures
        without_trailing(text).len() > 0 ==> without_trailing(text).first() == text.first(),
    decreases text.len(),
{
    if text.len() > 0 && whitespace(text.last()) {
        trailing_keeps_start(text.drop_last());
    }
}

} // verus!
