//! Text as characters: cutting a text into lines at line feeds, joining lines
//! back into a text, and editing one line by character position.
//!
//! A line is the sequence of its characters; positions count characters, not
//! bytes.

use vstd::prelude::*;

verus! {

/// The lines of `text`: the pieces between its line feeds, in order.
///
/// A text with `n` line feeds has `n + 1` lines, so the empty text has one
/// empty line and a text that ends in a line feed has an empty last line.
pub open spec fn split_lines(text: Seq<char>) -> Seq<Seq<char>>
    decreases text.len(),
{
    if text.len() == 0 {
        seq![Seq::empty()]
    } else {
        let before = split_lines(text.drop_last());
        if text.last() == '\n' {
            before.push(Seq::empty())
        } else {
            before.update(before.len() - 1, before.last().push(text.last()))
        }
    }
}

/// The text made of `lines` with one line feed between each two neighbours.
pub open spec fn join_lines(lines: Seq<Seq<char>>) -> Seq<char>
    decreases lines.len(),
{
    if lines.len() == 0 {
        Seq::empty()
    } else if lines.len() == 1 {
        lines[0]
    } else {
        join_lines(lines.drop_last()) + seq!['\n'] + lines.last()
    }
}

/// Whether `line` holds no line feed.
pub open spec fn has_no_line_feed(line: Seq<char>) -> bool {
    forall|i: int| 0 <= i < line.len() ==> line[i] != '\n'
}

/// The character sequences of a sequence of strings.
pub open spec fn lines_of(strings: Seq<String>) -> Seq<Seq<char>> {
    Seq::new(strings.len(), |i: int| strings[i]@)
}

/// A text always has at least one line, and none of its lines holds a line
/// feed.
pub proof fn lemma_split_lines_shape(text: Seq<char>)
    ensures
        split_lines(text).len() >= 1,
        forall|i: int|
            0 <= i < split_lines(text).len() ==> has_no_line_feed(#[trigger] split_lines(text)[i]),
    decreases text.len(),
{
    if text.len() > 0 {
        lemma_split_lines_shape(text.drop_last());
    }
}

/// Joining the lines of a text gives the text back, character for character.
pub proof fn lemma_join_split(text: Seq<char>)
    ensures
        join_lines(split_lines(text)) == text,
    decreases text.len(),
{
    if text.len() > 0 {
        let shorter = text.drop_last();
        let before = split_lines(shorter);
        let after = split_lines(text);
        lemma_split_lines_shape(shorter);
        lemma_join_split(shorter);
        if text.last() == '\n' {
            assert(after.drop_last() == before);
            assert(join_lines(after) == shorter + seq!['\n'] + Seq::<char>::empty());
        } else if before.len() == 1 {
            assert(join_lines(after) == shorter.push(text.last()));
        } else {
            assert(after.drop_last() == before.drop_last());
            assert(join_lines(after) == join_lines(before).push(text.last()));
        }
        assert(text == shorter.push(text.last()));
    }
}

/// A text without a line feed is its own single line.
pub proof fn lemma_split_single(line: Seq<char>)
    requires
        has_no_line_feed(line),
    ensures
        split_lines(line) == seq![line],
    decreases line.len(),
{
    if line.len() == 0 {
        assert(line == Seq::<char>::empty());
    } else {
        lemma_split_single(line.drop_last());
        assert(line == line.drop_last().push(line.last()));
        assert(split_lines(line) == seq![line]);
    }
}

/// A line feed and a line without one, put behind a text, add that line to
/// the text's lines.
proof fn lemma_split_appended(text: Seq<char>, line: Seq<char>)
    requires
        has_no_line_feed(line),
    ensures
        split_lines(text + seq!['\n'] + line) == split_lines(text).push(line),
    decreases line.len(),
{
    let whole = text + seq!['\n'] + line;
    if line.len() == 0 {
        assert(whole.drop_last() == text);
        assert(line == Seq::<char>::empty());
    } else {
        let shorter = line.drop_last();
        lemma_split_appended(text, shorter);
        assert(whole.drop_last() == text + seq!['\n'] + shorter);
        assert(line == shorter.push(line.last()));
        assert(split_lines(whole) == split_lines(text).push(line));
    }
}

/// Cutting a joined text gives the lines back, where there is at least one
/// line and no line holds a line feed.
pub proof fn lemma_split_join(lines: Seq<Seq<char>>)
    requires
        lines.len() >= 1,
        forall|i: int| 0 <= i < lines.len() ==> has_no_line_feed(#[trigger] lines[i]),
    ensures
        split_lines(join_lines(lines)) == lines,
    decreases lines.len(),
{
    if lines.len() == 1 {
        lemma_split_single(lines[0]);
    } else {
        lemma_split_join(lines.drop_last());
        lemma_split_appended(join_lines(lines.drop_last()), lines.last());
        assert(lines == lines.drop_last().push(lines.last()));
    }
}

/// Appends `c` to `text` by `String::push`, which std documents as putting
/// the given character at the end of the string.
#[verifier::external_body]
pub(crate) fn push_char(text: &mut String, c: char)
    ensures
        final(text)@ == old(text)@.push(c),
{
    text.push(c)
}

/// Cuts `content` into its lines.
pub fn split_text(content: &str) -> (lines: Vec<String>)
    ensures
        lines_of(lines@) == split_lines(content@),
{
    let mut done: Vec<String> = Vec::new();
    let mut current = String::new();
    for c in it: content.chars()
        invariant
            it.seq() == content@,
            lines_of(done@).push(current@) == split_lines(content@.take(it.index() as int)),
    {
        let ghost seen = content@.take(it.index() as int);
        let ghost next = content@.take(it.index() + 1);
        assert(next.drop_last() == seen);
        assert(next.last() == c);
        if c == '\n' {
            assert(lines_of(done@.push(current)) == lines_of(done@).push(current@));
            done.push(current);
            current = String::new();
        } else {
            push_char(&mut current, c);
        }
        assert(lines_of(done@).push(current@) == split_lines(next));
    }
    assert(content@.take(content@.len() as int) == content@);
    assert(lines_of(done@.push(current)) == lines_of(done@).push(current@));
    done.push(current);
    done
}

/// Joins `lines` into one text, with a line feed between each two neighbours.
pub fn join_text(lines: &[String]) -> (text: String)
    ensures
        text@ == join_lines(lines_of(lines@)),
{
    let mut text = String::new();
    let mut i: usize = 0;
    while i < lines.len()
        invariant
            i <= lines.len(),
            text@ == join_lines(lines_of(lines@).take(i as int)),
        decreases lines.len() - i,
    {
        let ghost all = lines_of(lines@);
        assert(all.take(i + 1).drop_last() == all.take(i as int));
        if i > 0 {
            proof {
                reveal_strlit("\n");
            }
            assert("\n"@ == seq!['\n']);
            text.append("\n");
        }
        text.append(lines[i].as_str());
        assert(text@ == join_lines(all.take(i + 1)));
        i = i + 1;
    }
    assert(lines_of(lines@).take(lines.len() as int) == lines_of(lines@));
    text
}

/// Returns `line` with `c` put in before the character at position `at`, or
/// at the end where `at` is the line's length, and with it the position
/// directly behind `c`.
pub fn insert_char(line: &str, at: usize, c: char) -> (edited: (String, usize))
    requires
        at <= line@.len(),
    ensures
        edited.0@ == line@.insert(at as int, c),
        edited.1 == at + 1,
{
    let len = line.unicode_len();
    let mut text = String::from_str(line.substring_char(0, at));
    push_char(&mut text, c);
    let behind = text.as_str().unicode_len();
    text.append(line.substring_char(at, len));
    assert(text@ == line@.insert(at as int, c));
    (text, behind)
}

/// Returns `line` without the character at position `at`.
pub fn remove_char(line: &str, at: usize) -> (edited: String)
    requires
        at < line@.len(),
    ensures
        edited@ == line@.remove(at as int),
{
    let len = line.unicode_len();
    let mut edited = String::from_str(line.substring_char(0, at));
    edited.append(line.substring_char(at + 1, len));
    assert(edited@ == line@.remove(at as int));
    edited
}

/// Cuts `line` in two before the character at position `at`.
pub fn split_line(line: &str, at: usize) -> (parts: (String, String))
    requires
        at <= line@.len(),
    ensures
        parts.0@ == line@.subrange(0, at as int),
        parts.1@ == line@.subrange(at as int, line@.len() as int),
{
    let len = line.unicode_len();
    let left = String::from_str(line.substring_char(0, at));
    let right = String::from_str(line.substring_char(at, len));
    (left, right)
}

} // verus!
