//! Text as a sequence of lines, searches over those lines, and text from
//! the bytes that a probe read.
//!
//! A line ends at a line feed; a carriage return directly before that line
//! feed belongs to the terminator. Text that ends with a terminator has no
//! further, empty line after it, and empty text has no line at all.

use std::string::FromUtf8Error;
use vstd::prelude::*;
use vstd::utf8::{decode_utf8, valid_utf8};
use crate::errors::ProbeError;

verus! {

/// `std::string::FromUtf8Error`, what `String::from_utf8` returns for bytes
/// that are no text. Nothing inside it is read.
#[verifier::external_type_specification]
#[verifier::external_body]
pub struct ExFromUtf8Error(FromUtf8Error);

/// `String::from_utf8`: the bytes are taken as text exactly where they are
/// valid UTF-8, and the text is then the characters that they encode.
pub assume_specification[ String::from_utf8 ](vec: Vec<u8>) -> (result: Result<
    String,
    FromUtf8Error,
>)
    ensures
        result is Ok <==> valid_utf8(vec@),
        result matches Ok(text) ==> text@ == decode_utf8(vec@),
;

/// The text that `bytes` encode, if they encode one.
pub open spec fn text_of(bytes: Seq<u8>) -> Option<Seq<char>> {
    if valid_utf8(bytes) {
        Some(decode_utf8(bytes))
    } else {
        None
    }
}

/// Reads `bytes` as text. Bytes that are no valid UTF-8 are a probe's
/// output in a form that nobody expects.
pub fn read_text(bytes: Vec<u8>) -> (result: Result<String, ProbeError>)
    ensures
        match text_of(bytes@) {
            Some(text) => result matches Ok(read) && read@ == text,
            None => result == Err::<String, ProbeError>(ProbeError::UnexpectedFormat),
        },
{
    match String::from_utf8(bytes) {
        Ok(text) => Ok(text),
        Err(_) => Err(ProbeError::UnexpectedFormat),
    }
}

/// The number of characters before the first line feed of `text`, or the
/// length of `text` if it holds none.
pub open spec fn first_line_end(text: Seq<char>) -> nat
    decreases text.len(),
{
    if text.len() == 0 || text[0] == '\n' {
        0
    } else {
        1 + first_line_end(text.drop_first())
    }
}

/// The first line of a non-empty `text`, without its terminator.
pub open spec fn first_line(text: Seq<char>) -> Seq<char> {
    let end = first_line_end(text) as int;
    if 0 < end < text.len() && text[end - 1] == '\r' {
        text.subrange(0, end - 1)
    } else {
        text.subrange(0, end)
    }
}

/// What is left of `text` behind its first line and that line's terminator.
pub open spec fn after_first_line(text: Seq<char>) -> Seq<char> {
    let end = first_line_end(text) as int;
    if end < text.len() {
        text.skip(end + 1)
    } else {
        Seq::empty()
    }
}

/// The lines of `text`, in order, without their terminators.
pub open spec fn lines(text: Seq<char>) -> Seq<Seq<char>>
    decreases text.len(),
{
    if text.len() == 0 {
        Seq::empty()
    } else {
        seq![first_line(text)] + lines(after_first_line(text))
    }
}

/// `needle` occurs in `hay` as a run of neighbouring characters.
pub open spec fn occurs_in(needle: Seq<char>, hay: Seq<char>) -> bool {
    exists|k: int|
        0 <= k && k + needle.len() <= hay.len() && #[trigger] hay.subrange(
            k,
            k + needle.len(),
        ) == needle
}

/// One line passes the test for `marker`: it equals `marker` where
/// `whole_line` is set, and holds `marker` somewhere otherwise.
pub open spec fn line_passes(line: Seq<char>, marker: Seq<char>, whole_line: bool) -> bool {
    if whole_line {
        line == marker
    } else {
        occurs_in(marker, line)
    }
}

/// Some line among `ls` passes the test for `marker`.
pub open spec fn some_line_passes(
    ls: Seq<Seq<char>>,
    marker: Seq<char>,
    whole_line: bool,
) -> bool {
    exists|i: int| 0 <= i < ls.len() && line_passes(#[trigger] ls[i], marker, whole_line)
}

/// Some line of `text` is exactly `marker`.
pub open spec fn any_line_is(text: Seq<char>, marker: Seq<char>) -> bool {
    some_line_passes(lines(text), marker, true)
}

/// Some line of `text` holds `marker`.
pub open spec fn any_line_contains(text: Seq<char>, marker: Seq<char>) -> bool {
    some_line_passes(lines(text), marker, false)
}

/// `first_line_end` is the one position that no line feed precedes and that
/// is a line feed or the end of the text.
pub proof fn lemma_first_line_end(text: Seq<char>, end: int)
    requires
        0 <= end <= text.len(),
        forall|k: int| 0 <= k < end ==> text[k] != '\n',
        end < text.len() ==> text[end] == '\n',
    ensures
        first_line_end(text) == end,
    decreases text.len(),
{
    if text.len() == 0 || text[0] == '\n' {
    } else {
        let rest = text.drop_first();
        assert forall|k: int| 0 <= k < end - 1 implies rest[k] != '\n' by {
            assert(rest[k] == text[k + 1]);
        }
        lemma_first_line_end(rest, end - 1);
    }
}

/// A search of the lines of a non-empty text is a test of its first line or
/// a search of the lines behind it.
pub proof fn lemma_search_unfolds(text: Seq<char>, marker: Seq<char>, whole_line: bool)
    requires
        text.len() > 0,
    ensures
        some_line_passes(lines(text), marker, whole_line) <==> (line_passes(
            first_line(text),
            marker,
            whole_line,
        ) || some_line_passes(lines(after_first_line(text)), marker, whole_line)),
{
    let head = first_line(text);
    let tail = lines(after_first_line(text));
    let all = lines(text);
    if line_passes(head, marker, whole_line) {
        assert(all[0] == head);
    }
    if some_line_passes(tail, marker, whole_line) {
        let j = choose|j: int|
            0 <= j < tail.len() && line_passes(#[trigger] tail[j], marker, whole_line);
        assert(all[j + 1] == tail[j]);
    }
}

/// The characters of `text`, one element each.
pub fn chars_of(text: &str) -> (chars: Vec<char>)
    ensures
        chars@ == text@,
{
    let mut chars: Vec<char> = Vec::new();
    for c in it: text.chars()
        invariant
            it.seq() == text@,
            chars@ == it.seq().take(it.index()),
    {
        chars.push(c);
    }
    chars
}

/// The end of the line that starts at `start`: the position of the next line
/// feed, or the length of the text.
fn line_end(chars: &Vec<char>, start: usize) -> (end: usize)
    requires
        start <= chars.len(),
    ensures
        start <= end <= chars.len(),
        end - start == first_line_end(chars@.skip(start as int)),
{
    let mut end: usize = start;
    while end < chars.len() && chars[end] != '\n'
        invariant
            start <= end <= chars.len(),
            forall|k: int| start <= k < end ==> chars@[k] != '\n',
        decreases chars.len() - end,
    {
        end = end + 1;
    }
    proof {
        let rest = chars@.skip(start as int);
        assert forall|k: int| 0 <= k < end - start implies rest[k] != '\n' by {
            assert(rest[k] == chars@[start + k]);
        }
        lemma_first_line_end(rest, end - start);
    }
    end
}

/// Whether `needle` stands in `hay` at position `at`.
fn matches_at(hay: &Vec<char>, at: usize, needle: &Vec<char>) -> (same: bool)
    requires
        at + needle.len() <= hay.len(),
    ensures
        same == (hay@.subrange(at as int, at + needle.len()) == needle@),
{
    let ghost window = hay@.subrange(at as int, at + needle.len());
    let mut i: usize = 0;
    while i < needle.len()
        invariant
            i <= needle.len(),
            at + needle.len() <= hay.len(),
            window == hay@.subrange(at as int, at + needle.len()),
            forall|k: int| 0 <= k < i ==> window[k] == needle@[k],
        decreases needle.len() - i,
    {
        if hay[at + i] != needle[i] {
            return false;
        }
        i = i + 1;
    }
    assert(window =~= needle@);
    true
}

/// Whether `needle` occurs in `hay` between `from` and `to`.
fn range_contains(hay: &Vec<char>, from: usize, to: usize, needle: &Vec<char>) -> (found: bool)
    requires
        from <= to <= hay.len(),
    ensures
        found == occurs_in(needle@, hay@.subrange(from as int, to as int)),
{
    let ghost span = hay@.subrange(from as int, to as int);
    if needle.len() > to - from {
        return false;
    }
    let last: usize = to - needle.len();
    let mut at: usize = from;
    loop
        invariant
            from <= at <= last,
            last + needle.len() == to,
            from <= to <= hay.len(),
            span == hay@.subrange(from as int, to as int),
            forall|k: int|
                0 <= k < at - from ==> #[trigger] span.subrange(k, k + needle.len()) != needle@,
        decreases last - at,
    {
        assert(span.subrange(at - from, at - from + needle.len()) =~= hay@.subrange(
            at as int,
            at + needle.len(),
        ));
        if matches_at(hay, at, needle) {
            return true;
        }
        if at == last {
            return false;
        }
        at = at + 1;
    }
}

/// Searches the lines of `chars` from the first to the last and stops at the
/// first one that passes the test for `marker`.
fn search_lines(chars: &Vec<char>, marker: &Vec<char>, whole_line: bool) -> (found: bool)
    ensures
        found == some_line_passes(lines(chars@), marker@, whole_line),
{
    let mut start: usize = 0;
    assert(chars@.skip(0) =~= chars@);
    while start < chars.len()
        invariant
            start <= chars.len(),
            some_line_passes(lines(chars@), marker@, whole_line) <==> some_line_passes(
                lines(chars@.skip(start as int)),
                marker@,
                whole_line,
            ),
        decreases chars.len() - start,
    {
        let ghost rest = chars@.skip(start as int);
        let end = line_end(chars, start);
        let stop = if start < end && end < chars.len() && chars[end - 1] == '\r' {
            end - 1
        } else {
            end
        };
        proof {
            lemma_search_unfolds(rest, marker@, whole_line);
            assert(first_line(rest) =~= chars@.subrange(start as int, stop as int));
        }
        let hit = if whole_line {
            stop - start == marker.len() && matches_at(chars, start, marker)
        } else {
            range_contains(chars, start, stop, marker)
        };
        if hit {
            return true;
        }
        let next = if end < chars.len() {
            end + 1
        } else {
            end
        };
        assert(after_first_line(rest) =~= chars@.skip(next as int));
        start = next;
    }
    false
}

/// Whether some line of `text` is exactly `marker`.
pub fn has_line(text: &str, marker: &str) -> (found: bool)
    ensures
        found == any_line_is(text@, marker@),
{
    let chars = chars_of(text);
    let wanted = chars_of(marker);
    search_lines(&chars, &wanted, true)
}

/// Whether some line of `text` holds `marker`.
pub fn has_line_containing(text: &str, marker: &str) -> (found: bool)
    ensures
        found == any_line_contains(text@, marker@),
{
    let chars = chars_of(text);
    let wanted = chars_of(marker);
    search_lines(&chars, &wanted, false)
}

} // verus!
